//! Decoder for the tile atlas format: variable-size blocks back-to-back
//! until the buffer ends, each a 4-byte little-endian width/height header
//! followed by `width * height` pixel bytes of palette indices.

use vstd::prelude::*;

use crate::level::spec_le_u16;

verus! {

/// One tile of the atlas: `width * height` palette indices in row-major
/// order.
#[derive(Clone, Debug, PartialEq)]
pub struct Tile {
    pub width: u16,
    pub height: u16,
    pub data: Vec<u8>,
}

/// The blocks parsed from cursor `i` to the end of the buffer, as
/// `(width, height, pixels)` triples, or `None` when a block's header or
/// declared pixel count would read past the end.
pub open spec fn tiles_from(b: Seq<u8>, i: int) -> Option<Seq<(int, int, Seq<u8>)>>
    decreases b.len() - i,
{
    if i >= b.len() {
        Some(Seq::empty())
    } else if i + 4 > b.len() {
        None
    } else {
        let w = spec_le_u16(b[i], b[i + 1]);
        let h = spec_le_u16(b[i + 2], b[i + 3]);
        if i + 4 + w * h > b.len() {
            None
        } else {
            match tiles_from(b, i + 4 + w * h) {
                Some(rest) => Some(seq![(w, h, b.subrange(i + 4, i + 4 + w * h))] + rest),
                None => None,
            }
        }
    }
}

/// The `(width, height, pixels)` triples a vector of tiles stands for.
pub open spec fn blocks_of(tiles: Seq<Tile>) -> Seq<(int, int, Seq<u8>)> {
    Seq::new(tiles.len(), |k: int| (tiles[k].width as int, tiles[k].height as int, tiles[k].data@))
}

/// Decodes a tile atlas: blocks are read back-to-back until the buffer
/// is exhausted; a block that would read past the end is rejected.
/// Zero-size tiles are legal and yield an empty pixel vector.
pub fn load_tiles(bytes: &[u8]) -> (r: Result<Vec<Tile>, String>)
    ensures
        match r {
            Ok(tiles) => {
                &&& tiles_from(bytes@, 0) matches Some(model)
                &&& blocks_of(tiles@) == model
            },
            Err(m) => tiles_from(bytes@, 0) is None && m@ == "cannot read over array bounds"@,
        },
{
    let len = bytes.len();
    let mut tiles: Vec<Tile> = Vec::new();
    let mut i: usize = 0;
    while i < len
        invariant
            len == bytes@.len(),
            i <= len,
            tiles_from(bytes@, i as int) matches Some(rest) ==> tiles_from(bytes@, 0) matches Some(
                all,
            ) && all == blocks_of(tiles@) + rest,
            tiles_from(bytes@, i as int) is None ==> tiles_from(bytes@, 0) is None,
        decreases len - i,
    {
        if len - i < 4 {
            return Err(String::from_str("cannot read over array bounds"));
        }
        let width = bytes[i] as u16 + 256 * (bytes[i + 1] as u16);
        let height = bytes[i + 2] as u16 + 256 * (bytes[i + 3] as u16);
        // The largest block size, 0xffff * 0xffff, still fits a 32-bit
        // usize.
        proof {
            assert(width as int * height as int <= 0xfffe0001int) by (nonlinear_arith)
                requires
                    width as int <= 0xffff,
                    height as int <= 0xffff,
            ;
        }
        let size = width as usize * height as usize;
        if len - i - 4 < size {
            return Err(String::from_str("cannot read over array bounds"));
        }
        let data = vstd::slice::slice_subrange(bytes, i + 4, i + 4 + size);
        let ghost previous = tiles@;
        tiles.push(Tile { width, height, data: vstd::slice::slice_to_vec(data) });
        proof {
            let b = bytes@;
            let block = (width as int, height as int, b.subrange(
                i as int + 4,
                i as int + 4 + size as int,
            ));
            assert(blocks_of(tiles@) =~= blocks_of(previous) + seq![block]);
            let rest = tiles_from(b, i as int + 4 + size as int);
            if rest is Some {
                assert(blocks_of(previous) + (seq![block] + rest.unwrap()) =~= blocks_of(tiles@)
                    + rest.unwrap());
            }
        }
        i = i + 4 + size;
    }
    proof {
        assert(blocks_of(tiles@) + Seq::<(int, int, Seq<u8>)>::empty() =~= blocks_of(tiles@));
    }
    Ok(tiles)
}

} // verus!
