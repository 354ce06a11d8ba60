//! The program loader's word pairing: a raw byte stream becomes the
//! initial memory image, two bytes per word, low byte first.

use vstd::prelude::*;

verus! {

/// The words encoded by a byte stream: consecutive pairs read little
/// endian, an odd trailing byte dropped.
pub open spec fn words_of(bytes: Seq<u8>) -> Seq<u16> {
    Seq::new(bytes.len() / 2, |i: int| (bytes[2 * i] + 256 * bytes[2 * i + 1]) as u16)
}

/// Pair consecutive bytes of a program image into little-endian words, low
/// byte first; an odd trailing byte is dropped.
pub fn words_from_bytes(bytes: &[u8]) -> (r: Vec<u16>)
    ensures
        r@ == words_of(bytes@),
{
    let mut result: Vec<u16> = Vec::new();
    let mut j: usize = 0;
    while bytes.len() - j >= 2
        invariant
            j <= bytes.len(),
            j % 2 == 0,
            result@ =~= words_of(bytes@).take(j as int / 2),
        decreases bytes.len() - j,
    {
        let low = bytes[j];
        let high = bytes[j + 1];
        let word: u16 = low as u16 + 256 * (high as u16);
        result.push(word);
        j = j + 2;
        proof {
            assert(result@ =~= words_of(bytes@).take(j as int / 2));
        }
    }
    proof {
        assert(j as int / 2 == bytes@.len() / 2);
        assert(result@ =~= words_of(bytes@));
    }
    result
}

} // verus!
