//! Decoder for the palette format: a run of 6-bit RGB triplets, expanded
//! to RGBA with every channel scaled by 4 and entry 0 used as the
//! transparency key.

use vstd::prelude::*;

use crate::decimal::{decimal_digits, usize_to_string};

verus! {

/// The error string for a palette buffer whose length is no multiple
/// of 3.
pub open spec fn palette_length_message(len: nat) -> Seq<char> {
    "length has to be divisible by 3, was "@ + decimal_digits(len)
}

/// The RGBA entry derived from the raw triplet at position `i`: each
/// channel scaled by 4, with alpha 0 for entry 0 (the transparency key)
/// and 255 for every other entry.
pub open spec fn palette_entry(b: Seq<u8>, i: int) -> Seq<u8> {
    seq![
        (4 * b[3 * i]) as u8,
        (4 * b[3 * i + 1]) as u8,
        (4 * b[3 * i + 2]) as u8,
        if i == 0 {
            0u8
        } else {
            255u8
        },
    ]
}

/// Decodes a palette out of a raw buffer of 6-bit RGB triplets; a buffer
/// whose length is no multiple of 3 is rejected.
pub fn load_palette(bytes: &[u8]) -> (r: Result<Vec<Vec<u8>>, String>)
    requires
        forall|i: int| 0 <= i < bytes@.len() ==> bytes@[i] < 64,
    ensures
        match r {
            Ok(palette) => {
                &&& bytes@.len() % 3 == 0
                &&& palette@.len() == bytes@.len() / 3
                &&& forall|i: int|
                    0 <= i < palette@.len() ==> (#[trigger] palette@[i])@ == palette_entry(
                        bytes@,
                        i,
                    )
            },
            Err(m) => bytes@.len() % 3 != 0 && m@ == palette_length_message(bytes@.len()),
        },
{
    let len = bytes.len();
    if len % 3 != 0 {
        let mut message = String::from_str("length has to be divisible by 3, was ");
        let digits = usize_to_string(len);
        message.append(digits.as_str());
        return Err(message);
    }
    let entries = len / 3;
    let mut palette: Vec<Vec<u8>> = Vec::new();
    let mut i: usize = 0;
    while i < entries
        invariant
            len == bytes@.len(),
            forall|j: int| 0 <= j < bytes@.len() ==> bytes@[j] < 64,
            entries == len / 3,
            len % 3 == 0,
            i <= entries,
            palette@.len() == i,
            forall|j: int|
                0 <= j < i ==> (#[trigger] palette@[j])@ == palette_entry(bytes@, j),
        decreases entries - i,
    {
        let mut entry: Vec<u8> = Vec::new();
        entry.push(4 * bytes[3 * i]);
        entry.push(4 * bytes[3 * i + 1]);
        entry.push(4 * bytes[3 * i + 2]);
        entry.push(
            if i == 0 {
                0
            } else {
                255
            },
        );
        proof {
            assert(entry@ =~= palette_entry(bytes@, i as int));
        }
        palette.push(entry);
        i = i + 1;
    }
    Ok(palette)
}

} // verus!
