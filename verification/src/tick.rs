//! A registry of named stopwatches, one per phase of a frame, each with the
//! history of what it measured. All times are whole nanoseconds.

use std::time::Duration;
use std::time::Instant;
use vstd::prelude::*;

verus! {

/// One second, in nanoseconds: the budget between two resets.
pub const NANOS_PER_SECOND: i64 = 1_000_000_000;

/// What an empty history reports as its shortest sample: one hundred seconds.
pub const EMPTY_MIN: u64 = 100_000_000_000;

/// The time from `start` to `end`, and zero where `end` lies before `start`.
pub open spec fn gap(start: u64, end: u64) -> u64 {
    if end >= start {
        (end - start) as u64
    } else {
        0
    }
}

/// One measured span.
#[derive(Clone, Copy, Debug, PartialEq, Eq, Structural)]
pub struct TickHistoryData {
    pub start: u64,
    pub end: u64,
    pub duration: u64,
}

/// The sum of the durations of `s`.
pub open spec fn total(s: Seq<TickHistoryData>) -> int
    decreases s.len(),
{
    if s.len() == 0 {
        0
    } else {
        total(s.drop_last()) + s.last().duration
    }
}

/// The shortest duration in `s`; [`EMPTY_MIN`] where `s` is empty.
pub open spec fn least(s: Seq<TickHistoryData>) -> int
    decreases s.len(),
{
    if s.len() == 0 {
        EMPTY_MIN as int
    } else if s.len() == 1 {
        s.last().duration as int
    } else if s.last().duration < least(s.drop_last()) {
        s.last().duration as int
    } else {
        least(s.drop_last())
    }
}

/// The longest duration in `s`; zero where `s` is empty.
pub open spec fn greatest(s: Seq<TickHistoryData>) -> int
    decreases s.len(),
{
    if s.len() == 0 {
        0
    } else if s.last().duration > greatest(s.drop_last()) {
        s.last().duration as int
    } else {
        greatest(s.drop_last())
    }
}

/// The mean duration of `s`, rounded down; zero where `s` is empty.
pub open spec fn mean(s: Seq<TickHistoryData>) -> int {
    if s.len() == 0 {
        0
    } else {
        total(s) / (s.len() as int)
    }
}

/// The shortest duration of a history that is not empty is one of its
/// samples, and no sample is shorter.
pub proof fn lemma_least_is_minimum(s: Seq<TickHistoryData>)
    requires
        s.len() > 0,
    ensures
        exists|i: int| 0 <= i < s.len() && #[trigger] s[i].duration == least(s),
        forall|i: int| 0 <= i < s.len() ==> least(s) <= #[trigger] s[i].duration,
    decreases s.len(),
{
    if s.len() == 1 {
        assert(s[0].duration == least(s));
    } else {
        let front = s.drop_last();
        lemma_least_is_minimum(front);
        let k = choose|i: int| 0 <= i < front.len() && #[trigger] front[i].duration == least(front);
        assert(front[k] == s[k]);
        if s.last().duration < least(front) {
            assert(s[s.len() - 1].duration == least(s));
        } else {
            assert(s[k].duration == least(s));
        }
        assert forall|i: int| 0 <= i < s.len() implies least(s) <= #[trigger] s[i].duration by {
            if i < s.len() - 1 {
                assert(front[i] == s[i]);
            }
        }
    }
}

/// The longest duration of a history that is not empty is one of its
/// samples, and no sample is longer.
pub proof fn lemma_greatest_is_maximum(s: Seq<TickHistoryData>)
    requires
        s.len() > 0,
    ensures
        exists|i: int| 0 <= i < s.len() && #[trigger] s[i].duration == greatest(s),
        forall|i: int| 0 <= i < s.len() ==> greatest(s) >= #[trigger] s[i].duration,
    decreases s.len(),
{
    if s.len() == 1 {
        assert(greatest(s.drop_last()) == 0);
        assert(s[0].duration == greatest(s));
    } else {
        let front = s.drop_last();
        lemma_greatest_is_maximum(front);
        let k = choose|i: int|
            0 <= i < front.len() && #[trigger] front[i].duration == greatest(front);
        assert(front[k] == s[k]);
        if s.last().duration > greatest(front) {
            assert(s[s.len() - 1].duration == greatest(s));
        } else {
            assert(s[k].duration == greatest(s));
        }
        assert forall|i: int| 0 <= i < s.len() implies greatest(s) >= #[trigger] s[i].duration by {
            if i < s.len() - 1 {
                assert(front[i] == s[i]);
            }
        }
    }
}

/// The sum of a history lies between its length times its shortest and its
/// length times its longest duration, so the mean lies between the two.
pub proof fn lemma_mean_between(s: Seq<TickHistoryData>)
    requires
        s.len() > 0,
    ensures
        s.len() * least(s) <= total(s) <= s.len() * greatest(s),
        least(s) <= mean(s) <= greatest(s),
        0 <= total(s) <= s.len() * u64::MAX,
    decreases s.len(),
{
    let n = s.len() as int;
    let d = s.last().duration as int;
    let front = s.drop_last();
    if s.len() == 1 {
        assert(front.len() == 0);
        assert(total(front) == 0);
        assert(total(s) == d);
        assert(least(s) == d);
        assert(greatest(front) == 0);
        assert(greatest(s) == d);
    } else {
        lemma_mean_between(front);
        let lo = least(front);
        let hi = greatest(front);
        assert(least(s) <= lo && least(s) <= d);
        assert(greatest(s) >= hi && greatest(s) >= d);
        assert((n - 1) * least(s) <= (n - 1) * lo) by (nonlinear_arith)
            requires
                least(s) <= lo,
                n >= 1,
        ;
        assert((n - 1) * greatest(s) >= (n - 1) * hi) by (nonlinear_arith)
            requires
                greatest(s) >= hi,
                n >= 1,
        ;
        assert(n * least(s) == (n - 1) * least(s) + least(s)) by (nonlinear_arith);
        assert(n * greatest(s) == (n - 1) * greatest(s) + greatest(s)) by (nonlinear_arith);
        assert(n * u64::MAX == (n - 1) * u64::MAX + u64::MAX) by (nonlinear_arith);
    }
    let t = total(s);
    let a = least(s);
    let b = greatest(s);
    assert(a <= t / n) by (nonlinear_arith)
        requires
            n * a <= t,
            n > 0,
    ;
    assert(t / n <= b) by (nonlinear_arith)
        requires
            t <= n * b,
            n > 0,
    ;
}

/// What one stopwatch has measured since the last reset, with running
/// statistics over it.
pub struct TickHistory {
    datas: Vec<TickHistoryData>,
    acc: u128,
    average: u64,
    min: u64,
    max: u64,
}

impl View for TickHistory {
    type V = Seq<TickHistoryData>;

    /// The samples, oldest first.
    closed spec fn view(&self) -> Seq<TickHistoryData> {
        self.datas@
    }
}

impl TickHistory {
    #[verifier::type_invariant]
    spec fn well_formed(&self) -> bool {
        &&& self.acc == total(self.datas@)
        &&& self.average == mean(self.datas@)
        &&& self.min == least(self.datas@)
        &&& self.max == greatest(self.datas@)
    }

    /// An empty history.
    pub fn new() -> (r: TickHistory)
        ensures
            r@ == Seq::<TickHistoryData>::empty(),
    {
        TickHistory { datas: Vec::new(), acc: 0, average: 0, min: EMPTY_MIN, max: 0 }
    }

    /// Records the span from `start` to `end` as the newest sample.
    pub fn add(&mut self, start: u64, end: u64)
        ensures
            final(self)@ == old(self)@.push(
                TickHistoryData { start, end, duration: gap(start, end) },
            ),
    {
        proof {
            use_type_invariant(&*self);
        }
        let duration: u64 = if end >= start {
            end - start
        } else {
            0
        };
        let sample = TickHistoryData { start, end, duration };
        let count_before: usize = self.datas.len();
        let ghost before = self.datas@;
        let ghost after = before.push(sample);
        proof {
            assert(after.drop_last() == before);
            assert(after.last() == sample);
            if before.len() > 0 {
                lemma_mean_between(before);
            }
            lemma_mean_between(after);
            assert(before.len() == count_before);
            assert(before.len() * u64::MAX <= usize::MAX * u64::MAX) by (nonlinear_arith)
                requires
                    before.len() <= usize::MAX,
                    u64::MAX >= 0,
            ;
            assert(usize::MAX * u64::MAX + u64::MAX <= u128::MAX) by (nonlinear_arith)
                requires
                    usize::MAX <= u64::MAX,
                    u64::MAX == 0xffff_ffff_ffff_ffff,
                    u128::MAX == 0xffff_ffff_ffff_ffff_ffff_ffff_ffff_ffff,
            ;
        }
        let min: u64 = if count_before == 0 || duration < self.min {
            duration
        } else {
            self.min
        };
        let max: u64 = if self.max < duration {
            duration
        } else {
            self.max
        };
        let acc: u128 = self.acc + (duration as u128);
        let mut taken = TickHistory::new();
        std::mem::swap(self, &mut taken);
        let mut datas: Vec<TickHistoryData> = taken.datas;
        datas.push(sample);
        let count: u128 = datas.len() as u128;
        let average: u64 = (acc / count) as u64;
        *self = TickHistory { datas, acc, average, min, max };
    }

    /// Forgets every sample.
    pub fn reset(&mut self)
        ensures
            final(self)@ == Seq::<TickHistoryData>::empty(),
    {
        *self = TickHistory::new();
    }

    /// The number of samples.
    pub fn count(&self) -> (r: usize)
        ensures
            r == self@.len(),
    {
        self.datas.len()
    }

    /// The newest sample, if there is one.
    pub fn last(&self) -> (r: Option<TickHistoryData>)
        ensures
            r == (if self@.len() == 0 {
                None
            } else {
                Some(self@.last())
            }),
    {
        let n: usize = self.datas.len();
        if n == 0 {
            None
        } else {
            Some(self.datas[n - 1])
        }
    }

    /// The sum of all durations.
    pub fn sum(&self) -> (r: u128)
        ensures
            r == total(self@),
    {
        proof {
            use_type_invariant(self);
        }
        self.acc
    }

    /// The mean duration, rounded down to a whole nanosecond.
    pub fn average(&self) -> (r: u64)
        ensures
            r == mean(self@),
    {
        proof {
            use_type_invariant(self);
        }
        self.average
    }

    /// The shortest duration.
    pub fn min(&self) -> (r: u64)
        ensures
            r == least(self@),
    {
        proof {
            use_type_invariant(self);
        }
        self.min
    }

    /// The longest duration.
    pub fn max(&self) -> (r: u64)
        ensures
            r == greatest(self@),
    {
        proof {
            use_type_invariant(self);
        }
        self.max
    }
}

/// The name of a phase.
pub type TickID = &'static str;

/// The phase that spans a whole frame.
pub const TICK_FRAME_ID: &'static str = "Frame";

/// The phase in which the scene is drawn.
pub const TICK_DRAW_ID: &'static str = "Draw";

/// The phase from the first draw call of a frame to its presentation.
pub const TICK_RENDER_ID: &'static str = "Render";

/// The phase in which the overlay is painted.
pub const TICK_RENDER_EGUI_ID: &'static str = "EguiRender";

/// Where a stopwatch stands.
#[derive(Clone, Copy, Debug, PartialEq, Eq, Structural)]
pub enum TickState {
    /// Registered and never started.
    Initialized,
    /// Started at the given time and not yet stopped.
    Running(u64),
    /// Stopped.
    Done,
}

/// What the registry holds for one phase.
pub struct PhaseView {
    pub state: TickState,
    pub history: Seq<TickHistoryData>,
}

/// The summary of one phase: how many samples, the newest duration, the mean,
/// and how far the shortest lies below and the longest above the mean.
#[derive(Clone, Copy, Debug, PartialEq, Eq, Structural)]
pub struct TickReport {
    pub count: usize,
    pub last: u64,
    pub average: u64,
    pub below_average: u64,
    pub above_average: u64,
}

/// The summary of a history that is not empty.
pub open spec fn report_of(history: Seq<TickHistoryData>) -> TickReport {
    TickReport {
        count: history.len() as usize,
        last: history.last().duration,
        average: mean(history) as u64,
        below_average: (mean(history) - least(history)) as u64,
        above_average: (greatest(history) - mean(history)) as u64,
    }
}

/// The registry as a value: each registered phase with its state and
/// history, and what is left of the budget, in nanoseconds.
pub struct TickSystemView {
    pub phases: Map<Seq<char>, PhaseView>,
    pub remaining: int,
}

impl TickSystemView {
    /// Whether `id` is registered and its stopwatch is running.
    pub open spec fn is_running(self, id: Seq<char>) -> bool {
        self.phases.contains_key(id) && self.phases[id].state is Running
    }

    /// The registry after `id` was registered.
    pub open spec fn register(self, id: Seq<char>) -> TickSystemView {
        if self.phases.contains_key(id) {
            self
        } else {
            TickSystemView {
                phases: self.phases.insert(
                    id,
                    PhaseView { state: TickState::Initialized, history: Seq::empty() },
                ),
                remaining: self.remaining,
            }
        }
    }

    /// The registry after the stopwatch of `id` was started at `now`.
    pub open spec fn start(self, id: Seq<char>, now: u64) -> TickSystemView {
        if self.phases.contains_key(id) {
            TickSystemView {
                phases: self.phases.insert(
                    id,
                    PhaseView { state: TickState::Running(now), history: self.phases[id].history },
                ),
                remaining: self.remaining,
            }
        } else {
            self
        }
    }

    /// The registry after the stopwatch of `id` was stopped at `now`.
    pub open spec fn end(self, id: Seq<char>, now: u64) -> TickSystemView {
        if self.phases.contains_key(id) {
            match self.phases[id].state {
                TickState::Running(start) => TickSystemView {
                    phases: self.phases.insert(
                        id,
                        PhaseView {
                            state: TickState::Done,
                            history: self.phases[id].history.push(
                                TickHistoryData { start, end: now, duration: gap(start, now) },
                            ),
                        },
                    ),
                    remaining: self.remaining,
                },
                _ => self,
            }
        } else {
            self
        }
    }

    /// The time from the start of the running frame phase to `now`.
    pub open spec fn frame_elapsed(self, now: u64) -> Option<u64> {
        if self.phases.contains_key(TICK_FRAME_ID@) {
            match self.phases[TICK_FRAME_ID@].state {
                TickState::Running(start) => Some(gap(start, now)),
                _ => None,
            }
        } else {
            None
        }
    }

    /// The summary of `id`, where it is registered and has a sample.
    pub open spec fn report(self, id: Seq<char>) -> Option<TickReport> {
        if self.phases.contains_key(id) && self.phases[id].history.len() > 0 {
            Some(report_of(self.phases[id].history))
        } else {
            None
        }
    }

    /// The registry with every history emptied and the budget full again.
    pub open spec fn reset(self) -> TickSystemView {
        TickSystemView {
            phases: self.phases.map_values(
                |p: PhaseView| PhaseView { state: p.state, history: Seq::empty() },
            ),
            remaining: NANOS_PER_SECOND as int,
        }
    }

    /// The registry after the newest frame duration was taken from the
    /// budget, which stops falling at `i64::MIN`.
    pub open spec fn update_time(self) -> TickSystemView {
        if self.phases.contains_key(TICK_FRAME_ID@) && self.phases[TICK_FRAME_ID@].history.len()
            > 0 {
            let spent = self.phases[TICK_FRAME_ID@].history.last().duration;
            TickSystemView {
                phases: self.phases,
                remaining: if self.remaining - spent < i64::MIN {
                    i64::MIN as int
                } else {
                    self.remaining - spent
                },
            }
        } else {
            self
        }
    }
}

/// The registry after one frame for each of `spans`, a start and an end:
/// the frame phase is started and stopped, and the budget updated.
pub open spec fn after_frames(registry: TickSystemView, spans: Seq<(u64, u64)>) -> TickSystemView
    decreases spans.len(),
{
    if spans.len() == 0 {
        registry
    } else {
        after_frames(registry, spans.drop_last()).start(TICK_FRAME_ID@, spans.last().0).end(
            TICK_FRAME_ID@,
            spans.last().1,
        ).update_time()
    }
}

/// The time that the frames of `spans` took together.
pub open spec fn spent(spans: Seq<(u64, u64)>) -> int
    decreases spans.len(),
{
    if spans.len() == 0 {
        0
    } else {
        spent(spans.drop_last()) + gap(spans.last().0, spans.last().1)
    }
}

/// After any number of frames the budget is what it was less the time that
/// the frames took: it is used up exactly when the frames have taken more
/// than was left. (Stated for budgets that have not reached the floor.)
pub proof fn lemma_budget_after_frames(registry: TickSystemView, spans: Seq<(u64, u64)>)
    requires
        registry.phases.contains_key(TICK_FRAME_ID@),
        i64::MIN <= registry.remaining - spent(spans),
    ensures
        after_frames(registry, spans).phases.contains_key(TICK_FRAME_ID@),
        after_frames(registry, spans).remaining == registry.remaining - spent(spans),
        after_frames(registry, spans).remaining < 0 <==> spent(spans) > registry.remaining,
    decreases spans.len(),
{
    if spans.len() > 0 {
        lemma_spent_is_not_negative(spans.drop_last());
        lemma_budget_after_frames(registry, spans.drop_last());
    }
}

/// Frames take no negative time.
pub proof fn lemma_spent_is_not_negative(spans: Seq<(u64, u64)>)
    ensures
        spent(spans) >= 0,
    decreases spans.len(),
{
    if spans.len() > 0 {
        lemma_spent_is_not_negative(spans.drop_last());
    }
}

/// A reset leaves every phase registered, in the state it was in, with no
/// sample, and the budget at one second.
pub proof fn lemma_reset_empties(registry: TickSystemView, id: Seq<char>)
    ensures
        registry.reset().phases.dom() == registry.phases.dom(),
        registry.phases.contains_key(id) ==> {
            &&& registry.reset().phases[id].history.len() == 0
            &&& registry.reset().phases[id].state == registry.phases[id].state
        },
        registry.reset().report(id).is_none(),
        registry.reset().remaining == NANOS_PER_SECOND,
{
    assert(registry.reset().phases.dom() =~= registry.phases.dom());
}

/// Stopping a stopwatch that is not running changes nothing, whether the
/// phase is registered or not.
pub proof fn lemma_end_without_start(registry: TickSystemView, id: Seq<char>, now: u64)
    requires
        !registry.is_running(id),
    ensures
        registry.end(id, now) == registry,
{
}

/// `std::time::Instant`: a moment on a clock that never runs backwards.
/// Nothing of a moment is visible here.
#[verifier::external_type_specification]
#[verifier::external_body]
pub struct ExInstant(Instant);

/// `Instant::now` gives the present moment of a clock that never runs
/// backwards. Nothing is claimed of the moment it gives.
pub assume_specification[ Instant::now ]() -> (r: Instant);

/// `Instant::elapsed` gives the time that has passed since the instant.
/// Nothing is claimed of its length.
pub assume_specification[ Instant::elapsed ](instant: &Instant) -> (r: Duration);

/// `Duration::as_nanos` gives the length of the duration in whole
/// nanoseconds. Nothing is claimed of the number.
pub assume_specification[ Duration::as_nanos ](duration: &Duration) -> (r: u128);

struct Phase {
    id: String,
    state: TickState,
    history: TickHistory,
}

spec fn holds(phases: Seq<Phase>, id: Seq<char>) -> bool {
    exists|i: int| 0 <= i < phases.len() && #[trigger] phases[i].id@ == id
}

spec fn place(phases: Seq<Phase>, id: Seq<char>) -> int {
    choose|i: int| 0 <= i < phases.len() && #[trigger] phases[i].id@ == id
}

spec fn distinct(phases: Seq<Phase>) -> bool {
    forall|i: int, j: int|
        0 <= i < j < phases.len() ==> #[trigger] phases[i].id@ != #[trigger] phases[j].id@
}

spec fn seen(phase: Phase) -> PhaseView {
    PhaseView { state: phase.state, history: phase.history@ }
}

spec fn phases_of(phases: Seq<Phase>) -> Map<Seq<char>, PhaseView> {
    Map::new(|id: Seq<char>| holds(phases, id), |id: Seq<char>| seen(phases[place(phases, id)]))
}

proof fn lemma_place(phases: Seq<Phase>, i: int)
    requires
        distinct(phases),
        0 <= i < phases.len(),
    ensures
        holds(phases, phases[i].id@),
        place(phases, phases[i].id@) == i,
        phases_of(phases).contains_key(phases[i].id@),
        phases_of(phases)[phases[i].id@] == seen(phases[i]),
{
    let id = phases[i].id@;
    let j = place(phases, id);
    assert(0 <= j < phases.len() && phases[j].id@ == id);
    if j < i {
        assert(phases[j].id@ != phases[i].id@);
    } else if i < j {
        assert(phases[i].id@ != phases[j].id@);
    }
}

/// Replacing the phase at `i` by one of the same name replaces its entry.
proof fn lemma_update(before: Seq<Phase>, after: Seq<Phase>, i: int)
    requires
        distinct(before),
        0 <= i < before.len(),
        after.len() == before.len(),
        after[i].id@ == before[i].id@,
        forall|k: int| 0 <= k < before.len() && k != i ==> after[k] == before[k],
    ensures
        distinct(after),
        phases_of(after) == phases_of(before).insert(before[i].id@, seen(after[i])),
{
    assert forall|k: int| 0 <= k < before.len() implies (#[trigger] after[k].id@)
        == before[k].id@ by {}
    assert forall|a: int, b: int| 0 <= a < b < after.len() implies (#[trigger] after[a].id@) != (
    #[trigger] after[b].id@) by {
        assert(before[a].id@ != before[b].id@);
    }
    let want = phases_of(before).insert(before[i].id@, seen(after[i]));
    assert forall|id: Seq<char>| phases_of(after).contains_key(id) <==> want.contains_key(
        id,
    ) by {
        if holds(after, id) {
            let k = place(after, id);
            assert(before[k].id@ == id);
        }
        if holds(before, id) {
            let k = place(before, id);
            assert(after[k].id@ == id);
        }
        lemma_place(before, i);
    }
    assert forall|id: Seq<char>| phases_of(after).contains_key(id) implies phases_of(after)[id]
        == want[id] by {
        let k = place(after, id);
        lemma_place(after, k);
        lemma_place(before, k);
    }
    assert(phases_of(after) =~= want);
}

fn find(phases: &Vec<Phase>, id: &str) -> (r: Option<usize>)
    requires
        distinct(phases@),
    ensures
        match r {
            Some(i) => i < phases.len() && phases[i as int].id@ == id@,
            None => !holds(phases@, id@),
        },
{
    let key: String = id.to_owned();
    let mut i: usize = 0;
    while i < phases.len()
        invariant
            i <= phases.len(),
            key@ == id@,
            forall|k: int| 0 <= k < i ==> (#[trigger] phases[k].id@) != id@,
        decreases phases.len() - i,
    {
        if phases[i].id == key {
            return Some(i);
        }
        i += 1;
    }
    None
}

/// The registry of stopwatches. Its clock counts the nanoseconds since the
/// registry was made.
pub struct TickSystem {
    phases: Vec<Phase>,
    remaining_time: i64,
    epoch: Instant,
}

impl View for TickSystem {
    type V = TickSystemView;

    closed spec fn view(&self) -> TickSystemView {
        TickSystemView { phases: phases_of(self.phases@), remaining: self.remaining_time as int }
    }
}

impl TickSystem {
    #[verifier::type_invariant]
    spec fn well_formed(&self) -> bool {
        distinct(self.phases@)
    }

    /// A registry without phases, with a full budget.
    pub fn new() -> (r: TickSystem)
        ensures
            r@.phases == Map::<Seq<char>, PhaseView>::empty(),
            r@.remaining == NANOS_PER_SECOND,
    {
        let r = TickSystem {
            phases: Vec::new(),
            remaining_time: NANOS_PER_SECOND,
            epoch: Instant::now(),
        };
        assert(r@.phases =~= Map::<Seq<char>, PhaseView>::empty());
        r
    }

    /// The time on the registry's clock, which stops at `u64::MAX`.
    fn now(&self) -> (r: u64) {
        let nanos: u128 = self.epoch.elapsed().as_nanos();
        TickSystem::reading(nanos)
    }

    /// What a clock reads that has counted `nanos` nanoseconds: that many,
    /// and `u64::MAX` where they are more than that.
    pub fn reading(nanos: u128) -> (r: u64)
        ensures
            r == (if nanos > u64::MAX {
                u64::MAX
            } else {
                nanos as u64
            }),
    {
        if nanos > 0xffff_ffff_ffff_ffff {
            u64::MAX
        } else {
            nanos as u64
        }
    }

    /// Registers the phase `id`, with a stopwatch that was never started and
    /// an empty history. A phase that is registered already stays as it is.
    pub fn register_listener(&mut self, id: &str)
        ensures
            final(self)@ == old(self)@.register(id@),
    {
        proof {
            use_type_invariant(&*self);
        }
        let mut phases: Vec<Phase> = Vec::new();
        std::mem::swap(&mut self.phases, &mut phases);
        if find(&phases, id).is_none() {
            let ghost before = phases@;
            let phase = Phase {
                id: id.to_owned(),
                state: TickState::Initialized,
                history: TickHistory::new(),
            };
            phases.push(phase);
            proof {
                let after = phases@;
                let n = before.len() as int;
                assert forall|i: int, j: int| 0 <= i < j < after.len() implies (
                #[trigger] after[i].id@) != (#[trigger] after[j].id@) by {
                    if j == n {
                        assert(before[i].id@ != id@);
                    } else {
                        assert(before[i].id@ != before[j].id@);
                    }
                }
                let want = phases_of(before).insert(id@, seen(phase));
                assert forall|k: Seq<char>| phases_of(after).contains_key(k)
                    <==> want.contains_key(k) by {
                    if holds(before, k) {
                        let i = place(before, k);
                        assert(after[i].id@ == k);
                    }
                    if holds(after, k) && k != id@ {
                        let i = place(after, k);
                        assert(before[i].id@ == k);
                    }
                    assert(after[n].id@ == id@);
                }
                assert forall|k: Seq<char>| phases_of(after).contains_key(k) implies phases_of(
                    after,
                )[k] == want[k] by {
                    let i = place(after, k);
                    lemma_place(after, i);
                    if i < n {
                        assert(before[i] == after[i]);
                        lemma_place(before, i);
                    }
                }
                assert(phases_of(after) =~= want);
            }
        }
        std::mem::swap(&mut self.phases, &mut phases);
    }

    /// Starts the stopwatch of `id` at the time `now`, whatever its state
    /// was. Nothing happens where `id` is not registered.
    pub fn start_tick_at(&mut self, id: &str, now: u64)
        ensures
            final(self)@ == old(self)@.start(id@, now),
    {
        proof {
            use_type_invariant(&*self);
        }
        let mut phases: Vec<Phase> = Vec::new();
        std::mem::swap(&mut self.phases, &mut phases);
        if let Some(i) = find(&phases, id) {
            let ghost before = phases@;
            phases[i].state = TickState::Running(now);
            proof {
                lemma_place(before, i as int);
                lemma_update(before, phases@, i as int);
            }
        }
        std::mem::swap(&mut self.phases, &mut phases);
    }

    /// Stops the stopwatch of `id` at the time `now` and records the span
    /// since its start. Nothing happens where `id` is not registered or its
    /// stopwatch is not running.
    pub fn end_tick_at(&mut self, id: &str, now: u64)
        ensures
            final(self)@ == old(self)@.end(id@, now),
            !old(self)@.is_running(id@) ==> final(self)@ == old(self)@,
    {
        proof {
            use_type_invariant(&*self);
        }
        let mut phases: Vec<Phase> = Vec::new();
        std::mem::swap(&mut self.phases, &mut phases);
        if let Some(i) = find(&phases, id) {
            let ghost before = phases@;
            proof {
                lemma_place(before, i as int);
            }
            if let TickState::Running(start) = phases[i].state {
                phases[i].history.add(start, now);
                phases[i].state = TickState::Done;
                proof {
                    lemma_update(before, phases@, i as int);
                }
            }
        }
        std::mem::swap(&mut self.phases, &mut phases);
    }

    /// Starts the stopwatch of `id` at the present time on the registry's
    /// clock.
    pub fn start_tick(&mut self, id: &str)
        ensures
            exists|now: u64| final(self)@ == old(self)@.start(id@, now),
            !old(self)@.phases.contains_key(id@) ==> final(self)@ == old(self)@,
    {
        let now: u64 = self.now();
        self.start_tick_at(id, now);
    }

    /// Stops the stopwatch of `id` at the present time on the registry's
    /// clock.
    pub fn end_tick(&mut self, id: &str)
        ensures
            exists|now: u64| final(self)@ == old(self)@.end(id@, now),
            !old(self)@.is_running(id@) ==> final(self)@ == old(self)@,
    {
        let now: u64 = self.now();
        self.end_tick_at(id, now);
    }

    /// The time from the start of the running frame phase to `now`; `None`
    /// where the frame phase is not registered or not running.
    pub fn duration_since_frame_start_at(&self, now: u64) -> (r: Option<u64>)
        ensures
            r == self@.frame_elapsed(now),
    {
        proof {
            use_type_invariant(self);
        }
        match find(&self.phases, TICK_FRAME_ID) {
            Some(i) => {
                proof {
                    lemma_place(self.phases@, i as int);
                }
                match self.phases[i].state {
                    TickState::Running(start) => Some(
                        if now >= start {
                            now - start
                        } else {
                            0
                        },
                    ),
                    _ => None,
                }
            },
            None => None,
        }
    }

    /// The time from the start of the running frame phase to the present
    /// time on the registry's clock.
    pub fn duration_since_frame_start(&self) -> (r: Option<u64>)
        ensures
            exists|now: u64| r == self@.frame_elapsed(now),
            r.is_some() == self@.is_running(TICK_FRAME_ID@),
    {
        let now: u64 = self.now();
        self.duration_since_frame_start_at(now)
    }

    /// The summary of the phase `id`; `None` where it is not registered or
    /// has no sample.
    pub fn debug_tick(&self, id: &str) -> (r: Option<TickReport>)
        ensures
            r == self@.report(id@),
    {
        proof {
            use_type_invariant(self);
        }
        match find(&self.phases, id) {
            Some(i) => {
                proof {
                    lemma_place(self.phases@, i as int);
                }
                let history = &self.phases[i].history;
                match history.last() {
                    Some(newest) => {
                        proof {
                            lemma_mean_between(history@);
                        }
                        let average: u64 = history.average();
                        Some(
                            TickReport {
                                count: history.count(),
                                last: newest.duration,
                                average,
                                below_average: average - history.min(),
                                above_average: history.max() - average,
                            },
                        )
                    },
                    None => None,
                }
            },
            None => None,
        }
    }

    /// The summary of the frame phase, whose count is the number of frames
    /// since the last reset.
    pub fn debug_tick_iteration(&self) -> (r: Option<TickReport>)
        ensures
            r == self@.report(TICK_FRAME_ID@),
    {
        self.debug_tick(TICK_FRAME_ID)
    }

    /// Empties every history and fills the budget again. The stopwatches
    /// stay as they are, and so does the registration.
    pub fn reset(&mut self)
        ensures
            final(self)@ == old(self)@.reset(),
    {
        proof {
            use_type_invariant(&*self);
        }
        let mut phases: Vec<Phase> = Vec::new();
        std::mem::swap(&mut self.phases, &mut phases);
        let ghost before = phases@;
        let mut i: usize = 0;
        while i < phases.len()
            invariant
                i <= phases.len(),
                phases.len() == before.len(),
                forall|k: int|
                    0 <= k < phases.len() ==> (#[trigger] phases[k]).id@ == before[k].id@
                        && phases[k].state == before[k].state,
                forall|k: int| 0 <= k < i ==> (#[trigger] phases[k]).history@.len() == 0,
                forall|k: int| i <= k < phases.len() ==> (#[trigger] phases[k]) == before[k],
            decreases phases.len() - i,
        {
            phases[i].history.reset();
            i += 1;
        }
        self.remaining_time = NANOS_PER_SECOND;
        proof {
            let after = phases@;
            assert forall|a: int, b: int| 0 <= a < b < after.len() implies (
            #[trigger] after[a].id@) != (#[trigger] after[b].id@) by {
                assert(before[a].id@ != before[b].id@);
            }
            let want = old(self)@.reset().phases;
            assert forall|id: Seq<char>| phases_of(after).contains_key(id) <==> want.contains_key(
                id,
            ) by {
                if holds(after, id) {
                    let k = place(after, id);
                    assert(before[k].id@ == id);
                }
                if holds(before, id) {
                    let k = place(before, id);
                    assert(after[k].id@ == id);
                }
            }
            assert forall|id: Seq<char>| phases_of(after).contains_key(id) implies phases_of(
                after,
            )[id] == want[id] by {
                let k = place(after, id);
                lemma_place(after, k);
                lemma_place(before, k);
                assert(after[k].history@ =~= Seq::<TickHistoryData>::empty());
            }
            assert(phases_of(after) =~= want);
        }
        std::mem::swap(&mut self.phases, &mut phases);
    }

    /// Whether the budget is used up.
    pub fn should_reset(&self) -> (r: bool)
        ensures
            r == (self@.remaining < 0),
    {
        self.remaining_time < 0
    }

    /// Takes the newest frame duration from the budget. Nothing happens
    /// where the frame phase is not registered or has no sample.
    pub fn update_time(&mut self)
        ensures
            final(self)@ == old(self)@.update_time(),
    {
        proof {
            use_type_invariant(&*self);
        }
        if let Some(i) = find(&self.phases, TICK_FRAME_ID) {
            proof {
                lemma_place(self.phases@, i as int);
            }
            if let Some(newest) = self.phases[i].history.last() {
                let spent: u64 = newest.duration;
                let floor: i64 = i64::MIN;
                if spent > 0x7fff_ffff_ffff_ffff {
                    self.remaining_time = if self.remaining_time >= 0 {
                        let rest: u64 = spent - (self.remaining_time as u64);
                        if rest > 0x8000_0000_0000_0000 {
                            floor
                        } else if rest == 0x8000_0000_0000_0000 {
                            floor
                        } else {
                            -(rest as i64)
                        }
                    } else {
                        floor
                    };
                } else {
                    let step: i64 = spent as i64;
                    self.remaining_time = if self.remaining_time < floor + step {
                        floor
                    } else {
                        self.remaining_time - step
                    };
                }
            }
        }
    }
}

} // verus!
