//! Scene state for a small real-time renderer: transforms and camera data,
//! lights and materials, the named shader inputs they export, the input
//! gestures, and the stopwatch registry that times the phases of a frame.
//!
//! Every number that the renderer treats as a single-precision real is held
//! here as a [`scalar::Scalar`], the 32-bit IEEE-754 pattern of that number.
//! The library stores, orders, negates and clamps such numbers, and scales
//! them by 128; sums and products of them are the caller's to compute.

use crate::scalar::Scalar;
use vstd::prelude::*;

pub mod binding;
pub mod colors;
pub mod geometry;
pub mod input;
pub mod light;
pub mod material;
pub mod math;
pub mod math_data;
pub mod scalar;
pub mod texture;
pub mod tick;
pub mod uniform;
pub mod vertex;

verus! {

/// What the overlay shows and sets: colours as red, green, blue and alpha.
#[derive(Clone, Copy, Debug)]
pub struct State {
    pub open_debug: bool,
    pub background_color: [Scalar; 4],
    pub light_bulb_color: [[Scalar; 4]; 4],
    pub frame_time: u128,
    pub quit: bool,
}

impl State {
    /// Opaque black.
    pub open spec fn black() -> Seq<Scalar> {
        seq![
            Scalar { bits: 0 },
            Scalar { bits: 0 },
            Scalar { bits: 0 },
            Scalar { bits: 0x3f80_0000 },
        ]
    }

    /// Opaque white.
    pub open spec fn white() -> Seq<Scalar> {
        seq![
            Scalar { bits: 0x3f80_0000 },
            Scalar { bits: 0x3f80_0000 },
            Scalar { bits: 0x3f80_0000 },
            Scalar { bits: 0x3f80_0000 },
        ]
    }
}

impl Default for State {
    /// A black background, four white bulbs, nothing open and nothing asked.
    fn default() -> (r: State)
        ensures
            !r.open_debug,
            !r.quit,
            r.frame_time == 0,
            r.background_color@ == State::black(),
            forall|i: int| 0 <= i < 4 ==> (#[trigger] r.light_bulb_color@[i])@ == State::white(),
    {
        let o = Scalar::zero();
        let i = Scalar::one();
        let r = State {
            open_debug: false,
            background_color: [o, o, o, i],
            light_bulb_color: [[i, i, i, i], [i, i, i, i], [i, i, i, i], [i, i, i, i]],
            frame_time: 0,
            quit: false,
        };
        assert(r.background_color@ =~= State::black());
        assert forall|k: int| 0 <= k < 4 implies (#[trigger] r.light_bulb_color@[k])@
            == State::white() by {
            assert(r.light_bulb_color@[k]@ =~= State::white());
        }
        r
    }
}

/// Flips between windowed and fullscreen. The result says what the window has
/// to become: `true` for borderless fullscreen, `false` for windowed.
pub fn set_fullscreen(fullscreen: &mut bool) -> (r: bool)
    ensures
        *final(fullscreen) == !*old(fullscreen),
        r == !*old(fullscreen),
{
    if *fullscreen {
        *fullscreen = false;
    } else {
        *fullscreen = true;
    }
    *fullscreen
}

} // verus!
