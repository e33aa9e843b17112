//! The point light and its uniform block.

use vstd::prelude::*;
use crate::bytes::{is_word_image, words_to_bytes};

verus! {

/// A point light: where it is and what colour it has, each component the
/// bit pattern of a single-precision number.
#[derive(Clone, Copy, Debug, PartialEq, Eq)]
pub struct Light {
    pub position: [u32; 3],
    pub color: [u32; 3],
}

/// Words in the light's uniform block: two vectors of three, each padded
/// to four.
pub const LIGHT_WORDS: usize = 8;

/// Bytes in the light's uniform block.
pub const LIGHT_BYTES: usize = 32;

/// Uniform blocks are sized in multiples of this many bytes.
pub const UNIFORM_ALIGNMENT: usize = 16;

/// Degrees by which the light turns about the vertical axis per update.
pub const LIGHT_STEP_DEGREES: u32 = 1;

/// Degrees in a full turn.
pub const FULL_TURN: u32 = 360;

/// The block of a light: the position, a word of padding, the colour, a
/// word of padding.
pub open spec fn light_words(light: Light) -> Seq<u32> {
    seq![
        light.position@[0],
        light.position@[1],
        light.position@[2],
        0u32,
        light.color@[0],
        light.color@[1],
        light.color@[2],
        0u32,
    ]
}

/// The angle of the light after one more update, in whole degrees within
/// a turn.
pub open spec fn turned(angle: u32) -> u32 {
    ((angle % FULL_TURN + LIGHT_STEP_DEGREES) % (FULL_TURN as int)) as u32
}

/// The angle of the light after `k` more updates.
pub open spec fn turned_by(angle: u32, k: nat) -> u32
    decreases k,
{
    if k == 0 {
        angle
    } else {
        turned(turned_by(angle, (k - 1) as nat))
    }
}

/// After `k` updates the light has turned by `k` degrees: its angle is the
/// angle it started from plus `k`, within a turn.
pub proof fn light_turns_one_degree_per_update(angle: u32, k: nat)
    ensures
        k > 0 ==> turned_by(angle, k) == (angle + k) % (FULL_TURN as int),
        k > 0 || angle < FULL_TURN ==> turned_by(angle, k) < FULL_TURN,
    decreases k,
{
    if k > 0 {
        light_turns_one_degree_per_update(angle, (k - 1) as nat);
        let before = turned_by(angle, (k - 1) as nat);
        assert((before % 360 + 1) % 360 == (angle + k) % 360);
    }
}

/// The angle of the light after one more update.
pub fn turn(angle: u32) -> (next: u32)
    ensures
        next == turned(angle),
        next < FULL_TURN,
{
    (angle % FULL_TURN + LIGHT_STEP_DEGREES) % FULL_TURN
}

impl Light {
    /// The words of the light's uniform block.
    pub fn words(&self) -> (words: Vec<u32>)
        ensures
            words@ == light_words(*self),
    {
        let mut words: Vec<u32> = Vec::new();
        words.push(self.position[0]);
        words.push(self.position[1]);
        words.push(self.position[2]);
        words.push(0);
        words.push(self.color[0]);
        words.push(self.color[1]);
        words.push(self.color[2]);
        words.push(0);
        words
    }

    /// The bytes of the block as the uniform buffer holds them. Their
    /// number is a multiple of the alignment of uniform blocks.
    pub fn bytes(&self) -> (bytes: Vec<u8>)
        ensures
            is_word_image(bytes@, light_words(*self)),
            bytes@.len() == LIGHT_BYTES,
            bytes@.len() % (UNIFORM_ALIGNMENT as nat) == 0,
    {
        let words = self.words();
        words_to_bytes(&words)
    }
}

} // verus!
