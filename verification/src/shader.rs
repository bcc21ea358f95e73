//! Shader-bytecode validation.
//!
//! Compiled shader binaries arrive as raw bytes but the device consumes
//! 32-bit code words.  A binary whose length is not a multiple of the
//! code-word size is rejected as `MalformedShaderBinary`; a valid one is
//! repacked into words, four bytes per word, least-significant byte
//! first.

use vstd::prelude::*;
use crate::error::RenderError;

verus! {

/// Size of one shader code word in bytes.
pub const SHADER_WORD_SIZE: usize = 4;

/// The `i`-th code word of the byte sequence: four consecutive bytes,
/// least-significant first.
pub open spec fn shader_word(bytes: Seq<u8>, i: int) -> u32
    recommends
        0 <= i,
        4 * i + 4 <= bytes.len(),
{
    (bytes[4 * i] as u32)
        | (bytes[4 * i + 1] as u32) << 8
        | (bytes[4 * i + 2] as u32) << 16
        | (bytes[4 * i + 3] as u32) << 24
}

/// Validates and repacks a shader binary into code words.  Succeeds
/// exactly when the length is a multiple of the code-word size; the
/// result then holds one word per four bytes, least-significant byte
/// first.
pub fn pack_shader_words(code: &Vec<u8>) -> (r: Result<Vec<u32>, RenderError>)
    ensures
        r is Ok <==> code@.len() % 4 == 0,
        match r {
            Ok(words) => {
                &&& words@.len() == code@.len() / 4
                &&& forall|i: int| 0 <= i < words@.len()
                    ==> words@[i] == shader_word(code@, i)
            },
            Err(e) => e == RenderError::MalformedShaderBinary,
        },
{
    let len: usize = code.len();
    if len % SHADER_WORD_SIZE != 0 {
        return Err(RenderError::MalformedShaderBinary);
    }
    let word_count: usize = len / SHADER_WORD_SIZE;
    let mut words: Vec<u32> = Vec::new();
    let mut i: usize = 0;
    while i < word_count
        invariant
            0 <= i <= word_count,
            word_count == code@.len() / 4,
            code@.len() % 4 == 0,
            code@.len() == len,
            words@.len() == i,
            forall|j: int| 0 <= j < i ==> words@[j] == shader_word(code@, j),
        decreases word_count - i,
    {
        let b0 = code[4 * i];
        let b1 = code[4 * i + 1];
        let b2 = code[4 * i + 2];
        let b3 = code[4 * i + 3];
        let word: u32 = (b0 as u32)
            | (b1 as u32) << 8u32
            | (b2 as u32) << 16u32
            | (b3 as u32) << 24u32;
        words.push(word);
        i = i + 1;
    }
    Ok(words)
}

} // verus!
