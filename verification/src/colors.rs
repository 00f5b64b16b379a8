//! Named colours.

use rand::Rng;
use vstd::prelude::*;

verus! {

/// A named colour, or any other by its red, green, blue and alpha channels.
#[derive(Clone, Copy, Debug, PartialEq, Eq, Structural)]
pub enum Colors {
    RED,
    BLUE,
    GREEN,
    MAGENTA,
    YELLOW,
    TEAL,
    WHITE,
    GREY,
    BLACK,
    Other(u8, u8, u8, u8),
}

/// `rand::thread_rng` and `Rng::gen`: a number drawn by the generator of
/// this thread. Nothing is claimed of the number.
#[verifier::external_body]
fn random_u32() -> (n: u32) {
    rand::thread_rng().gen::<u32>()
}

impl Colors {
    /// The named colour that the draw `n` stands for: the nine names take
    /// turns.
    pub open spec fn spec_pick(n: u32) -> Colors {
        let k = n % 9;
        if k == 0 {
            Colors::RED
        } else if k == 1 {
            Colors::BLUE
        } else if k == 2 {
            Colors::GREEN
        } else if k == 3 {
            Colors::MAGENTA
        } else if k == 4 {
            Colors::YELLOW
        } else if k == 5 {
            Colors::TEAL
        } else if k == 6 {
            Colors::WHITE
        } else if k == 7 {
            Colors::GREY
        } else {
            Colors::BLACK
        }
    }

    /// The channels of the colour, each from 0 to 255.
    pub open spec fn spec_to_tuple(self) -> (u8, u8, u8, u8) {
        match self {
            Colors::RED => (255, 0, 0, 255),
            Colors::GREEN => (0, 255, 0, 255),
            Colors::BLUE => (0, 0, 255, 255),
            Colors::YELLOW => (255, 255, 0, 255),
            Colors::MAGENTA => (255, 0, 255, 255),
            Colors::TEAL => (0, 255, 255, 255),
            Colors::GREY => (128, 128, 128, 255),
            Colors::BLACK => (0, 0, 0, 255),
            Colors::WHITE => (255, 255, 255, 255),
            Colors::Other(r, g, b, a) => (r, g, b, a),
        }
    }

    /// The named colour that the draw `n` stands for.
    pub fn pick(n: u32) -> (r: Colors)
        ensures
            r == Colors::spec_pick(n),
            !(r is Other),
    {
        let k: u32 = n % 9;
        if k == 0 {
            Colors::RED
        } else if k == 1 {
            Colors::BLUE
        } else if k == 2 {
            Colors::GREEN
        } else if k == 3 {
            Colors::MAGENTA
        } else if k == 4 {
            Colors::YELLOW
        } else if k == 5 {
            Colors::TEAL
        } else if k == 6 {
            Colors::WHITE
        } else if k == 7 {
            Colors::GREY
        } else {
            Colors::BLACK
        }
    }

    /// One of the nine named colours, drawn at random.
    pub fn random() -> (r: Colors)
        ensures
            exists|n: u32| r == Colors::spec_pick(n),
            !(r is Other),
    {
        let n: u32 = random_u32();
        Colors::pick(n)
    }

    /// The channels of the colour, each from 0 to 255.
    pub fn to_tuple(self) -> (r: (u8, u8, u8, u8))
        ensures
            r == self.spec_to_tuple(),
    {
        match self {
            Colors::RED => (255, 0, 0, 255),
            Colors::GREEN => (0, 255, 0, 255),
            Colors::BLUE => (0, 0, 255, 255),
            Colors::YELLOW => (255, 255, 0, 255),
            Colors::MAGENTA => (255, 0, 255, 255),
            Colors::TEAL => (0, 255, 255, 255),
            Colors::GREY => (128, 128, 128, 255),
            Colors::BLACK => (0, 0, 0, 255),
            Colors::WHITE => (255, 255, 255, 255),
            Colors::Other(r, g, b, a) => (r, g, b, a),
        }
    }
}

} // verus!
