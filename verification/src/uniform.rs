//! The per-frame constants that every shader reads: the view-projection
//! matrix.

use vstd::prelude::*;
use crate::bytes::{is_word_image, words_to_bytes};
use crate::vertex::{ONE, ZERO};

verus! {

/// A 4-by-4 matrix of single-precision bit patterns; `m[i][j]` is word
/// `4 * i + j` of the sixteen that are stored.
pub type Matrix4 = [[u32; 4]; 4];

/// Words in the uniform block.
pub const UNIFORM_WORDS: usize = 16;

/// Word `k` of a matrix as stored.
pub open spec fn matrix_word(m: Matrix4, k: int) -> u32 {
    m@[k / 4]@[k % 4]
}

/// The sixteen words of a matrix as stored.
pub open spec fn matrix_words(m: Matrix4) -> Seq<u32> {
    Seq::new(16, |k: int| matrix_word(m, k))
}

/// The matrix with ones on the diagonal and zeros elsewhere.
pub open spec fn is_identity(m: Matrix4) -> bool {
    forall|i: int, j: int|
        0 <= i < 4 && 0 <= j < 4 ==> #[trigger] m@[i]@[j] == if i == j {
            ONE
        } else {
            ZERO
        }
}

/// The uniform block with the view-projection matrix.
#[derive(Clone, Copy, Debug, PartialEq, Eq)]
pub struct Uniforms {
    pub view_proj: Matrix4,
}

/// The sixteen words of a matrix as stored.
pub fn flatten_matrix(m: &Matrix4) -> (words: Vec<u32>)
    ensures
        words@ == matrix_words(*m),
{
    let mut words: Vec<u32> = Vec::new();
    let mut i: usize = 0;
    while i < 4
        invariant
            i <= 4,
            words@ == matrix_words(*m).subrange(0, 4 * i),
        decreases 4 - i,
    {
        let row = m[i];
        words.push(row[0]);
        words.push(row[1]);
        words.push(row[2]);
        words.push(row[3]);
        i = i + 1;
    }
    words
}

impl Uniforms {
    /// Uniforms that leave every point where it is.
    pub fn new() -> (uniforms: Uniforms)
        ensures
            is_identity(uniforms.view_proj),
    {
        Uniforms {
            view_proj: [
                [ONE, ZERO, ZERO, ZERO],
                [ZERO, ONE, ZERO, ZERO],
                [ZERO, ZERO, ONE, ZERO],
                [ZERO, ZERO, ZERO, ONE],
            ],
        }
    }

    /// Takes over the view-projection matrix that the camera gives.
    pub fn update_view_proj(&mut self, view_proj: Matrix4)
        ensures
            final(self).view_proj == view_proj,
    {
        self.view_proj = view_proj;
    }

    /// The sixty-four bytes of the block as the uniform buffer holds them.
    pub fn bytes(&self) -> (bytes: Vec<u8>)
        ensures
            is_word_image(bytes@, matrix_words(self.view_proj)),
            bytes@.len() == 4 * UNIFORM_WORDS,
    {
        let words = flatten_matrix(&self.view_proj);
        words_to_bytes(&words)
    }
}

} // verus!
