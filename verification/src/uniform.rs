//! Named shader inputs: the values a shader takes, the bag that gathers them
//! for one draw call, and the capability of exporting into it.

use crate::math::Mat4;
use crate::math::Vec2;
use crate::math::Vec3;
use crate::math::Vec4;
use crate::scalar::Scalar;
use vstd::prelude::*;

verus! {

/// The name under which a texture on the graphics device is known.
#[derive(Clone, Copy, Debug, PartialEq, Eq, Hash, Structural)]
pub struct TextureHandle {
    pub id: u32,
}

/// One shader input.
#[derive(Clone, Copy, Debug, PartialEq, Eq, Structural)]
pub enum UniformValue {
    Float(Scalar),
    Vec2(Vec2),
    Vec3(Vec3),
    Vec4(Vec4),
    Mat4(Mat4),
    Bool(bool),
    Texture2d(TextureHandle),
}

/// The name of the field `field` of the shader-side structure `prefix`:
/// the two with a dot between them.
pub open spec fn dotted(prefix: Seq<char>, field: Seq<char>) -> Seq<char> {
    prefix + seq!['.'] + field
}

/// The name of the field `field` of the shader-side structure `prefix`.
pub fn field_name(prefix: &str, field: &str) -> (r: String)
    ensures
        r@ == dotted(prefix@, field@),
{
    proof {
        reveal_strlit(".");
        assert("."@ =~= seq!['.']);
    }
    prefix.to_owned().concat(".").concat(field)
}

struct Entry {
    name: String,
    value: UniformValue,
}

spec fn holds(entries: Seq<Entry>, name: Seq<char>) -> bool {
    exists|i: int| 0 <= i < entries.len() && #[trigger] entries[i].name@ == name
}

spec fn place(entries: Seq<Entry>, name: Seq<char>) -> int {
    choose|i: int| 0 <= i < entries.len() && #[trigger] entries[i].name@ == name
}

spec fn distinct(entries: Seq<Entry>) -> bool {
    forall|i: int, j: int|
        0 <= i < j < entries.len() ==> #[trigger] entries[i].name@ != #[trigger] entries[j].name@
}

spec fn bound(entries: Seq<Entry>) -> Map<Seq<char>, UniformValue> {
    Map::new(
        |name: Seq<char>| holds(entries, name),
        |name: Seq<char>| entries[place(entries, name)].value,
    )
}

spec fn names_of(entries: Seq<Entry>) -> Seq<Seq<char>> {
    Seq::new(entries.len(), |i: int| entries[i].name@)
}

proof fn lemma_place(entries: Seq<Entry>, i: int)
    requires
        distinct(entries),
        0 <= i < entries.len(),
    ensures
        holds(entries, entries[i].name@),
        place(entries, entries[i].name@) == i,
        bound(entries).contains_key(entries[i].name@),
        bound(entries)[entries[i].name@] == entries[i].value,
{
    let name = entries[i].name@;
    let j = place(entries, name);
    assert(0 <= j < entries.len() && entries[j].name@ == name);
    if j < i {
        assert(entries[j].name@ != entries[i].name@);
    } else if i < j {
        assert(entries[i].name@ != entries[j].name@);
    }
}

proof fn lemma_names(entries: Seq<Entry>)
    requires
        distinct(entries),
    ensures
        names_of(entries).no_duplicates(),
        names_of(entries).to_set() == bound(entries).dom(),
        bound(entries).dom().finite(),
        bound(entries).dom().len() == entries.len(),
{
    let names = names_of(entries);
    assert forall|i: int, j: int| 0 <= i < names.len() && 0 <= j < names.len() && i
        != j implies names[i] != names[j] by {
        if i < j {
            assert(entries[i].name@ != entries[j].name@);
        } else {
            assert(entries[j].name@ != entries[i].name@);
        }
    }
    assert forall|key: Seq<char>| names.to_set().contains(key) <==> bound(
        entries,
    ).dom().contains(key) by {
        if names.contains(key) {
            let i = choose|i: int| 0 <= i < names.len() && names[i] == key;
            assert(entries[i].name@ == key);
        }
        if holds(entries, key) {
            let i = place(entries, key);
            assert(names[i] == key);
        }
    }
    assert(names.to_set() =~= bound(entries).dom());
    names.unique_seq_to_set();
}

fn find(entries: &Vec<Entry>, name: &str) -> (r: Option<usize>)
    requires
        distinct(entries@),
    ensures
        match r {
            Some(i) => i < entries.len() && entries[i as int].name@ == name@,
            None => !holds(entries@, name@),
        },
{
    let key: String = name.to_owned();
    let mut i: usize = 0;
    while i < entries.len()
        invariant
            i <= entries.len(),
            key@ == name@,
            forall|k: int| 0 <= k < i ==> (#[trigger] entries[k].name@) != name@,
        decreases entries.len() - i,
    {
        if entries[i].name == key {
            return Some(i);
        }
        i += 1;
    }
    None
}

/// The bag of named shader inputs for one draw call. A name occurs once;
/// what is added under a name that is there replaces what was there.
pub struct UniformStorage {
    entries: Vec<Entry>,
}

impl View for UniformStorage {
    type V = Map<Seq<char>, UniformValue>;

    closed spec fn view(&self) -> Map<Seq<char>, UniformValue> {
        bound(self.entries@)
    }
}

impl UniformStorage {
    #[verifier::type_invariant]
    spec fn well_formed(&self) -> bool {
        distinct(self.entries@)
    }

    /// The names in the bag, in the order in which [`UniformStorage::name_at`]
    /// gives them.
    pub closed spec fn names(&self) -> Seq<Seq<char>> {
        names_of(self.entries@)
    }

    /// An empty bag.
    pub fn new() -> (r: UniformStorage)
        ensures
            r@ == Map::<Seq<char>, UniformValue>::empty(),
            r.names() == Seq::<Seq<char>>::empty(),
    {
        let r = UniformStorage { entries: Vec::new() };
        assert(r@ =~= Map::<Seq<char>, UniformValue>::empty());
        assert(r.names() =~= Seq::<Seq<char>>::empty());
        r
    }

    /// Binds `name` to `value`, whether or not the name was bound before.
    pub fn add(&mut self, name: &str, value: UniformValue)
        ensures
            final(self)@ == old(self)@.insert(name@, value),
    {
        proof {
            use_type_invariant(&*self);
        }
        let mut entries: Vec<Entry> = Vec::new();
        std::mem::swap(&mut self.entries, &mut entries);
        let ghost before = entries@;
        let ghost want = bound(before).insert(name@, value);
        match find(&entries, name) {
            Some(i) => {
                entries[i].value = value;
                proof {
                    let after = entries@;
                    assert forall|k: int| 0 <= k < after.len() implies (#[trigger] after[k].name@)
                        == before[k].name@ by {}
                    assert forall|a: int, b: int| 0 <= a < b < after.len() implies (
                    #[trigger] after[a].name@) != (#[trigger] after[b].name@) by {
                        assert(before[a].name@ != before[b].name@);
                    }
                    assert forall|key: Seq<char>| bound(after).contains_key(key)
                        <==> want.contains_key(key) by {
                        if holds(after, key) {
                            let k = place(after, key);
                            assert(before[k].name@ == key);
                        }
                        if holds(before, key) {
                            let k = place(before, key);
                            assert(after[k].name@ == key);
                        }
                        assert(after[i as int].name@ == name@);
                    }
                    assert forall|key: Seq<char>| bound(after).contains_key(key) implies bound(
                        after,
                    )[key] == want[key] by {
                        let k = place(after, key);
                        lemma_place(after, k);
                        lemma_place(before, k);
                    }
                    assert(bound(after) =~= want);
                }
            },
            None => {
                entries.push(Entry { name: name.to_owned(), value });
                proof {
                    let after = entries@;
                    let n = before.len() as int;
                    assert forall|a: int, b: int| 0 <= a < b < after.len() implies (
                    #[trigger] after[a].name@) != (#[trigger] after[b].name@) by {
                        if b == n {
                            assert(before[a].name@ != name@);
                        } else {
                            assert(before[a].name@ != before[b].name@);
                        }
                    }
                    assert forall|key: Seq<char>| bound(after).contains_key(key)
                        <==> want.contains_key(key) by {
                        if holds(before, key) {
                            let k = place(before, key);
                            assert(after[k].name@ == key);
                        }
                        if holds(after, key) && key != name@ {
                            let k = place(after, key);
                            assert(before[k].name@ == key);
                        }
                        assert(after[n].name@ == name@);
                    }
                    assert forall|key: Seq<char>| bound(after).contains_key(key) implies bound(
                        after,
                    )[key] == want[key] by {
                        let k = place(after, key);
                        lemma_place(after, k);
                        if k < n {
                            assert(before[k] == after[k]);
                            lemma_place(before, k);
                        }
                    }
                    assert(bound(after) =~= want);
                }
            },
        }
        std::mem::swap(&mut self.entries, &mut entries);
    }

    /// What `name` is bound to, if it is bound.
    pub fn get(&self, name: &str) -> (r: Option<UniformValue>)
        ensures
            r == (if self@.contains_key(name@) {
                Some(self@[name@])
            } else {
                None
            }),
    {
        proof {
            use_type_invariant(self);
        }
        match find(&self.entries, name) {
            Some(i) => {
                proof {
                    lemma_place(self.entries@, i as int);
                }
                Some(self.entries[i].value)
            },
            None => None,
        }
    }

    /// The number of names in the bag. The names are the keys of the bag,
    /// each once: so one walk over the places meets every binding once.
    pub fn len(&self) -> (r: usize)
        ensures
            r == self.names().len(),
            r == self@.dom().len(),
            self@.dom().finite(),
            self.names().no_duplicates(),
            self.names().to_set() == self@.dom(),
    {
        proof {
            use_type_invariant(self);
            lemma_names(self.entries@);
        }
        self.entries.len()
    }

    /// The name at place `i`.
    pub fn name_at(&self, i: usize) -> (r: &String)
        requires
            i < self.names().len(),
        ensures
            r@ == self.names()[i as int],
    {
        &self.entries[i].name
    }

    /// The value bound to the name at place `i`.
    pub fn value_at(&self, i: usize) -> (r: UniformValue)
        requires
            i < self.names().len(),
        ensures
            self@.contains_key(self.names()[i as int]),
            r == self@[self.names()[i as int]],
    {
        proof {
            use_type_invariant(self);
            lemma_place(self.entries@, i as int);
        }
        self.entries[i].value
    }
}

impl Default for UniformStorage {
    fn default() -> (r: UniformStorage)
        ensures
            r@ == Map::<Seq<char>, UniformValue>::empty(),
    {
        UniformStorage::new()
    }
}

/// The capability of exporting oneself as named shader inputs.
pub trait StructToUniform {
    /// What the value exports under the name `struct_name`.
    spec fn uniforms(&self, struct_name: Seq<char>) -> Map<Seq<char>, UniformValue>;

    /// Adds what the value exports under `struct_name` to `storage`, over
    /// whatever stood there under the same names.
    fn as_uniform(&self, struct_name: &str, storage: &mut UniformStorage)
        ensures
            final(storage)@ == old(storage)@.union_prefer_right(self.uniforms(struct_name@)),
    ;
}

/// Of two values added under one name, the bag holds the second.
pub proof fn lemma_last_write_wins(
    bag: Map<Seq<char>, UniformValue>,
    name: Seq<char>,
    first: UniformValue,
    second: UniformValue,
)
    ensures
        bag.insert(name, first).insert(name, second) == bag.insert(name, second),
        bag.insert(name, first).insert(name, second)[name] == second,
        bag.insert(name, first).insert(name, second).dom() == bag.dom().insert(name),
{
    assert(bag.insert(name, first).insert(name, second) =~= bag.insert(name, second));
}

} // verus!
