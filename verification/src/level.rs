//! The level grid: a dense row-major field of cells, each holding an
//! optional game object plus the transient per-tick flags, and the decoder
//! that builds a grid from a raw level file.

use vstd::prelude::*;

use crate::objects::{object_of_tile, Object};

verus! {

/// A cardinal direction on the grid.  For a moving player it names the
/// edge the player is visually entering the destination cell from.
#[derive(Copy, Clone, Debug, PartialEq, Eq, Structural)]
pub enum Direction {
    North,
    East,
    South,
    West,
}

/// One cell of the playfield.  `x` and `y` are the cell's immutable grid
/// position; `object` and the flags mutate every tick.  `pre_occupied` and
/// `post_occupied` are write-only bookkeeping reserved for future use.
/// `moving_in_from` records the edge a player is visually entering from
/// and is cleared one tick after being set.
#[derive(Copy, Clone, Debug, PartialEq)]
pub struct Cell {
    pub x: u16,
    pub y: u16,
    pub object: Option<Object>,
    pub pre_occupied: bool,
    pub post_occupied: bool,
    pub changed_in_current_tick: bool,
    pub moving_in_from: Option<Direction>,
}

impl Cell {
    pub open spec fn spec_is_transparent(self) -> bool {
        match self.object {
            Some(object) => object.spec_is_transparent(),
            None => true,
        }
    }

    /// Whether the cell lets the background show through; a cell with no
    /// object counts as transparent.
    pub fn is_transparent(self) -> (r: bool)
        ensures
            r == self.spec_is_transparent(),
    {
        match self.object {
            Some(object) => object.is_transparent(),
            None => true,
        }
    }

    pub open spec fn spec_can_be_entered(self) -> bool {
        match self.object {
            Some(object) => object.spec_can_be_entered(),
            None => true,
        }
    }

    /// Whether the player may move onto this cell; a cell with no object
    /// can always be entered.
    pub fn can_be_entered(self) -> (r: bool)
        ensures
            r == self.spec_can_be_entered(),
    {
        match self.object {
            Some(object) => object.can_be_entered(),
            None => true,
        }
    }
}

/// Why a level file was rejected.
#[derive(Copy, Clone, Debug, PartialEq, Eq, Structural)]
pub enum LevelError {
    /// The buffer is shorter than the 4-byte width/height header.
    MissingHeader,
    /// The header declares `width * height` data bytes but the buffer
    /// holds `found` bytes in all; `4 + width * height` were expected.
    SizeMismatch { width: u16, height: u16, found: usize },
    /// A data byte is outside every tile range the catalog knows.
    InvalidTileIndex { index: u8 },
}

/// A level: a `width` x `height` playfield stored as a dense row-major
/// sequence of cells, so the cell at `(x, y)` sits at index
/// `y * width + x`.
#[derive(Debug)]
pub struct Level {
    pub width: u16,
    pub height: u16,
    pub map: Vec<Cell>,
}

impl Level {
    /// The grid invariant: the map is dense and every cell records its
    /// own position.
    pub open spec fn wf(self) -> bool {
        &&& self.map@.len() == self.width * self.height
        &&& forall|i: int|
            0 <= i < self.map@.len() ==> (#[trigger] self.map@[i]).x == i % (self.width as int)
                && self.map@[i].y == i / (self.width as int)
    }

    /// The row-major index of position `(x, y)`.
    pub open spec fn spec_index_of(self, x: int, y: int) -> int {
        y * self.width + x
    }

    fn row_major_index(&self, x: u16, y: u16) -> (i: usize)
        ensures
            i == self.spec_index_of(x as int, y as int),
    {
        // The largest possible index, 0xffff * 0xffff + 0xffff, still
        // fits a 32-bit usize.
        proof {
            assert(y as int * self.width as int <= 0xfffe0001int) by (nonlinear_arith)
                requires
                    y as int <= 0xffff,
                    self.width as int <= 0xffff,
            ;
        }
        y as usize * self.width as usize + x as usize
    }

    /// The cell at `(x, y)`, by raw row-major index: `None` only when the
    /// index falls outside the map.  An `x` beyond the width wraps into a
    /// later row; see `cell_checked` for the fully bounds-checked lookup.
    pub fn cell(&self, x: u16, y: u16) -> (r: Option<&Cell>)
        ensures
            match r {
                Some(c) => self.spec_index_of(x as int, y as int) < self.map@.len() && *c
                    == self.map@[self.spec_index_of(x as int, y as int)],
                None => self.spec_index_of(x as int, y as int) >= self.map@.len(),
            },
    {
        let index: usize = self.row_major_index(x, y);
        self.map.get(index)
    }

    /// The cell at `(x, y)`, or `None` when the position lies outside the
    /// `width` x `height` rectangle or the map is too short to hold it.
    pub fn cell_checked(&self, x: u16, y: u16) -> (r: Option<&Cell>)
        ensures
            match r {
                Some(c) => x < self.width && y < self.height && self.spec_index_of(
                    x as int,
                    y as int,
                ) < self.map@.len() && *c == self.map@[self.spec_index_of(x as int, y as int)],
                None => x >= self.width || y >= self.height || self.spec_index_of(
                    x as int,
                    y as int,
                ) >= self.map@.len(),
            },
    {
        if x < self.width && y < self.height {
            let index: usize = self.row_major_index(x, y);
            self.map.get(index)
        } else {
            None
        }
    }

    /// Overwrites the cell at `(x, y)`; a position whose row-major index
    /// falls outside the map is left alone.
    pub fn set_cell(&mut self, x: u16, y: u16, cell: Cell)
        ensures
            old(self).spec_index_of(x as int, y as int) < old(self).map@.len() ==> final(self).map@
                == old(self).map@.update(old(self).spec_index_of(x as int, y as int), cell),
            old(self).spec_index_of(x as int, y as int) >= old(self).map@.len() ==> final(self).map@
                == old(self).map@,
            final(self).width == old(self).width,
            final(self).height == old(self).height,
    {
        let index: usize = self.row_major_index(x, y);
        if index < self.map.len() {
            self.map[index] = cell;
        }
    }
}

/// The cell a raw data byte decodes to at row-major position `i`: flags
/// cleared, and a decoded `Empty` stored as no object at all.
pub open spec fn cell_of_byte(b: u8, i: int, width: int) -> Cell {
    Cell {
        x: (i % width) as u16,
        y: (i / width) as u16,
        object: match object_of_tile(b) {
            Some(Object::Empty) => None,
            decoded => decoded,
        },
        pre_occupied: false,
        post_occupied: false,
        changed_in_current_tick: false,
        moving_in_from: None,
    }
}

/// The position of the first data byte outside every known tile range,
/// if any.
pub open spec fn first_invalid_byte(data: Seq<u8>) -> Option<int>
    decreases data.len(),
{
    if data.len() == 0 {
        None
    } else if object_of_tile(data[0]) is None {
        Some(0)
    } else {
        match first_invalid_byte(data.drop_first()) {
            Some(i) => Some(i + 1),
            None => None,
        }
    }
}

/// Builds the playfield from its dimensions and one raw tile index per
/// cell, in row-major order.  Succeeds exactly when every byte lies in a
/// known tile range; the reported index is the first offending byte.
pub fn build_grid(width: u16, height: u16, data: &[u8]) -> (r: Result<Level, LevelError>)
    requires
        data@.len() == width * height,
    ensures
        match r {
            Ok(level) => {
                &&& first_invalid_byte(data@) is None
                &&& level.wf()
                &&& level.width == width
                &&& level.height == height
                &&& level.map@.len() == data@.len()
                &&& forall|i: int|
                    0 <= i < data@.len() ==> level.map@[i] == cell_of_byte(
                        data@[i],
                        i,
                        width as int,
                    )
            },
            Err(e) => {
                &&& first_invalid_byte(data@) matches Some(j)
                &&& 0 <= j < data@.len()
                &&& e == (LevelError::InvalidTileIndex { index: data@[j] })
            },
        },
{
    let mut map: Vec<Cell> = Vec::new();
    let mut i: usize = 0;
    let len = data.len();
    while i < len
        invariant
            len == data@.len(),
            data@.len() == width * height,
            i <= len,
            map@.len() == i,
            first_invalid_byte(data@.take(i as int)) is None,
            forall|j: int| 0 <= j < i ==> map@[j] == cell_of_byte(data@[j], j, width as int),
        decreases len - i,
    {
        let b = data[i];
        let object = match Object::from_tile_number(b) {
            Ok(Object::Empty) => None,
            Ok(decoded) => Some(decoded),
            Err(_) => {
                proof {
                    lemma_first_invalid_byte_extend(data@, i as int);
                }
                return Err(LevelError::InvalidTileIndex { index: b });
            },
        };
        // i < len == width * height, so the width is nonzero, the column
        // stays below it and the row stays below the height.
        proof {
            assert(width as int > 0) by (nonlinear_arith)
                requires
                    0 <= i as int,
                    (i as int) < (width as int) * (height as int),
            ;
            assert((i as int) / (width as int) < height as int) by (nonlinear_arith)
                requires
                    0 <= i as int,
                    0 < width as int,
                    (i as int) < (width as int) * (height as int),
            ;
        }
        let x = (i % width as usize) as u16;
        let y = (i / width as usize) as u16;
        map.push(
            Cell {
                x,
                y,
                object,
                pre_occupied: false,
                post_occupied: false,
                changed_in_current_tick: false,
                moving_in_from: None,
            },
        );
        proof {
            lemma_first_invalid_byte_extend(data@, i as int);
        }
        i = i + 1;
    }
    proof {
        assert(data@.take(len as int) =~= data@);
        let level = (Level { width, height, map });
        assert forall|k: int| 0 <= k < level.map@.len() implies (#[trigger] level.map@[k]).x == k
            % (level.width as int) && level.map@[k].y == k / (level.width as int) by {
            assert(level.map@[k] == cell_of_byte(data@[k], k, width as int));
            assert(width as int > 0) by (nonlinear_arith)
                requires
                    0 <= k,
                    k < (width as int) * (height as int),
            ;
            assert(k / (width as int) < height as int) by (nonlinear_arith)
                requires
                    0 <= k,
                    0 < width as int,
                    k < (width as int) * (height as int),
            ;
        }
    }
    Ok(Level { width, height, map })
}

proof fn lemma_first_invalid_byte_extend(data: Seq<u8>, i: int)
    requires
        0 <= i < data.len(),
        first_invalid_byte(data.take(i)) is None,
    ensures
        object_of_tile(data[i]) is Some ==> first_invalid_byte(data.take(i + 1)) is None,
        object_of_tile(data[i]) is None ==> first_invalid_byte(data.take(i + 1)) == Some(i)
            && first_invalid_byte(data) == Some(i),
    decreases i,
{
    if i == 0 {
        assert(data.take(1).drop_first() =~= Seq::<u8>::empty());
        assert(data.take(1)[0] == data[0]);
        assert(first_invalid_byte(Seq::<u8>::empty()) is None);
        if object_of_tile(data[0]) is None {
            lemma_first_invalid_byte_prefix(data, 1);
        }
    } else {
        assert(data.take(i).drop_first() =~= data.drop_first().take(i - 1));
        assert(data.take(i + 1).drop_first() =~= data.drop_first().take(i));
        assert(data.take(i + 1)[0] == data[0]);
        assert(data.take(i)[0] == data[0]);
        lemma_first_invalid_byte_extend(data.drop_first(), i - 1);
        if object_of_tile(data[i]) is None {
            lemma_first_invalid_byte_prefix(data, i + 1);
        }
    }
}

/// When the first `n` bytes hold an invalid byte, the whole buffer's
/// first invalid byte is the same one.
proof fn lemma_first_invalid_byte_prefix(data: Seq<u8>, n: int)
    requires
        0 <= n <= data.len(),
        first_invalid_byte(data.take(n)) is Some,
    ensures
        first_invalid_byte(data) == first_invalid_byte(data.take(n)),
    decreases n,
{
    assert(n > 0);
    assert(data.take(n)[0] == data[0]);
    if object_of_tile(data[0]) is None {
    } else {
        assert(data.take(n).drop_first() =~= data.drop_first().take(n - 1));
        lemma_first_invalid_byte_prefix(data.drop_first(), n - 1);
    }
}

/// Decodes a level file: a 4-byte little-endian width/height header
/// followed by exactly `width * height` tile-index bytes.
pub fn load_level(bytes: &[u8]) -> (r: Result<Level, LevelError>)
    ensures
        match r {
            Ok(level) => {
                &&& bytes@.len() >= 4
                &&& level.width == spec_le_u16(bytes@[0], bytes@[1])
                &&& level.height == spec_le_u16(bytes@[2], bytes@[3])
                &&& bytes@.len() == 4 + level.width * level.height
                &&& first_invalid_byte(bytes@.skip(4)) is None
                &&& level.wf()
                &&& level.map@.len() == level.width * level.height
                &&& forall|i: int|
                    0 <= i < level.map@.len() ==> level.map@[i] == cell_of_byte(
                        bytes@.skip(4)[i],
                        i,
                        level.width as int,
                    )
            },
            Err(LevelError::MissingHeader) => bytes@.len() < 4,
            Err(LevelError::SizeMismatch { width, height, found }) => {
                &&& bytes@.len() >= 4
                &&& width == spec_le_u16(bytes@[0], bytes@[1])
                &&& height == spec_le_u16(bytes@[2], bytes@[3])
                &&& found == bytes@.len()
                &&& bytes@.len() != 4 + width * height
            },
            Err(LevelError::InvalidTileIndex { index }) => {
                &&& bytes@.len() >= 4
                &&& bytes@.len() == 4 + spec_le_u16(bytes@[0], bytes@[1]) * spec_le_u16(
                    bytes@[2],
                    bytes@[3],
                )
                &&& first_invalid_byte(bytes@.skip(4)) matches Some(j)
                &&& 0 <= j < bytes@.skip(4).len()
                &&& index == bytes@.skip(4)[j]
            },
        },
{
    if bytes.len() < 4 {
        return Err(LevelError::MissingHeader);
    }
    let width = le_u16(bytes[0], bytes[1]);
    let height = le_u16(bytes[2], bytes[3]);
    // The largest declared size, 4 + 0xffff * 0xffff, still fits a 32-bit
    // usize.
    proof {
        assert(width as int * height as int <= 0xfffe0001int) by (nonlinear_arith)
            requires
                width as int <= 0xffff,
                height as int <= 0xffff,
        ;
    }
    if 4 + width as usize * height as usize == bytes.len() {
        let data = vstd::slice::slice_subrange(bytes, 4, bytes.len());
        build_grid(width, height, data)
    } else {
        Err(LevelError::SizeMismatch { width, height, found: bytes.len() })
    }
}

/// The unsigned 16-bit value of two little-endian bytes.
pub open spec fn spec_le_u16(low: u8, high: u8) -> int {
    low + 256 * high
}

fn le_u16(low: u8, high: u8) -> (r: u16)
    ensures
        r == spec_le_u16(low, high),
{
    low as u16 + 256 * (high as u16)
}

} // verus!
