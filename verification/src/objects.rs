//! The object catalog: the closed set of game objects that can occupy a
//! level cell, with the two-way mapping between objects and raw tile
//! indices, and the per-object flags the simulation reads.

use vstd::prelude::*;

use crate::decimal::{decimal_digits, usize_to_string};

verus! {

#[derive(Copy, Clone, Debug, PartialEq, Eq, Structural)]
pub enum KeyColor {
    Yellow,
    Red,
    Grey,
}

#[derive(Copy, Clone, Debug, PartialEq, Eq, Structural)]
pub enum GemKind {
    Gem1,
    Gem2,
    Gem3,
}

/// A game object.  Dirt and Wall carry one boolean per edge ("is this edge
/// open"), which selects one of 16 joined-sprite variants.  Animated
/// objects carry a frame offset, the phase added to the global tick
/// counter.  A letter keeps the raw tile index it was loaded from: the
/// letter-to-index mapping of the original assets is not recoverable, so
/// the index itself is stored rather than a guessed character.
#[derive(Copy, Clone, Debug, PartialEq, Eq, Structural)]
pub enum Object {
    Dirt { north: bool, east: bool, south: bool, west: bool },
    Wall { north: bool, east: bool, south: bool, west: bool },
    Empty,
    Door { frame_offset: u8 },
    Brick,
    Key { color: KeyColor, frame_offset: u8 },
    Pickaxe { frame_offset: u8 },
    Gem { kind: GemKind, frame_offset: u8 },
    Letter { tile_index: u8 },
    Boulder,
    Balloon,
    AirshipLeft { frame_offset: u8 },
    AirshipRight { frame_offset: u8 },
    Player,
    Enemy,
    Lock { color: KeyColor },
}

/// The 4-bit joined-sprite selector of a Dirt or Wall cell:
/// `north | east << 1 | south << 2 | west << 3`.
pub open spec fn edge_mask(north: bool, east: bool, south: bool, west: bool) -> int {
    (if north {
        1int
    } else {
        0int
    }) + (if east {
        2int
    } else {
        0int
    }) + (if south {
        4int
    } else {
        0int
    }) + (if west {
        8int
    } else {
        0int
    })
}

/// The displayed frame of an animated object: the frame offset plus the
/// tick counter, cycling through a window of 6 consecutive tile indices.
pub open spec fn animation_frame(base: int, frame_offset: u8, tick: u8) -> int {
    base + (frame_offset + tick) % 6
}

/// The object a raw tile index decodes to, or `None` for an index outside
/// every known range.
pub open spec fn object_of_tile(n: u8) -> Option<Object> {
    if n <= 15 || n == 32 {
        Some(Object::Dirt { north: false, east: false, south: false, west: false })
    } else if (16 <= n && n <= 31) || n == 33 {
        Some(Object::Wall { north: false, east: false, south: false, west: false })
    } else if n == 34 || n == 189 {
        Some(Object::Empty)
    } else if 35 <= n && n <= 38 {
        Some(Object::Door { frame_offset: 0 })
    } else if n == 39 {
        Some(Object::Brick)
    } else if 40 <= n && n <= 45 {
        Some(Object::Key { color: KeyColor::Yellow, frame_offset: (n - 40) as u8 })
    } else if 46 <= n && n <= 51 {
        Some(Object::Key { color: KeyColor::Red, frame_offset: (n - 46) as u8 })
    } else if 52 <= n && n <= 57 {
        Some(Object::Key { color: KeyColor::Grey, frame_offset: (n - 52) as u8 })
    } else if 58 <= n && n <= 63 {
        Some(Object::Pickaxe { frame_offset: (n - 58) as u8 })
    } else if 64 <= n && n <= 69 {
        Some(Object::Gem { kind: GemKind::Gem1, frame_offset: (n - 64) as u8 })
    } else if 70 <= n && n <= 75 {
        Some(Object::Gem { kind: GemKind::Gem2, frame_offset: (n - 70) as u8 })
    } else if 76 <= n && n <= 81 {
        Some(Object::Gem { kind: GemKind::Gem3, frame_offset: (n - 76) as u8 })
    } else if (82 <= n && n <= 117) || n == 190 || n == 191 {
        Some(Object::Letter { tile_index: n })
    } else if n == 118 {
        Some(Object::Boulder)
    } else if n == 119 {
        Some(Object::Balloon)
    } else if 120 <= n && n <= 125 {
        Some(Object::AirshipLeft { frame_offset: (n - 120) as u8 })
    } else if 126 <= n && n <= 131 {
        Some(Object::AirshipRight { frame_offset: (n - 126) as u8 })
    } else if 132 <= n && n <= 161 {
        Some(Object::Player)
    } else if 162 <= n && n <= 185 {
        Some(Object::Enemy)
    } else if n == 186 {
        Some(Object::Lock { color: KeyColor::Yellow })
    } else if n == 187 {
        Some(Object::Lock { color: KeyColor::Red })
    } else if n == 188 {
        Some(Object::Lock { color: KeyColor::Grey })
    } else {
        None
    }
}

/// The tile index an object displays as at the given tick.
pub open spec fn tile_of_object(o: Object, tick: u8) -> int {
    match o {
        Object::Dirt { north, east, south, west } => edge_mask(north, east, south, west),
        Object::Wall { north, east, south, west } => 16 + edge_mask(north, east, south, west),
        Object::Empty => 34,
        Object::Door { .. } => 35,
        Object::Brick => 39,
        Object::Key { color, frame_offset } => match color {
            KeyColor::Yellow => animation_frame(40, frame_offset, tick),
            KeyColor::Red => animation_frame(46, frame_offset, tick),
            KeyColor::Grey => animation_frame(52, frame_offset, tick),
        },
        Object::Pickaxe { frame_offset } => animation_frame(58, frame_offset, tick),
        Object::Gem { kind, frame_offset } => match kind {
            GemKind::Gem1 => animation_frame(64, frame_offset, tick),
            GemKind::Gem2 => animation_frame(70, frame_offset, tick),
            GemKind::Gem3 => animation_frame(76, frame_offset, tick),
        },
        Object::Letter { tile_index } => tile_index as int,
        Object::Boulder => 118,
        Object::Balloon => 119,
        Object::AirshipLeft { frame_offset } => animation_frame(120, frame_offset, tick),
        Object::AirshipRight { frame_offset } => animation_frame(126, frame_offset, tick),
        Object::Player => 156,
        Object::Enemy => 180,
        Object::Lock { color } => match color {
            KeyColor::Yellow => 186,
            KeyColor::Red => 187,
            KeyColor::Grey => 188,
        },
    }
}

/// The error string for a tile index outside every known range.
pub open spec fn invalid_tile_message(n: u8) -> Seq<char> {
    "invalid sprite number "@ + decimal_digits(n as nat)
}

/// Two objects are of the same variant, with the same color or kind where
/// one is carried; frame offsets and adjacency edges are left free.
pub open spec fn same_variant(a: Object, b: Object) -> bool {
    match (a, b) {
        (Object::Dirt { .. }, Object::Dirt { .. }) => true,
        (Object::Wall { .. }, Object::Wall { .. }) => true,
        (Object::Empty, Object::Empty) => true,
        (Object::Door { .. }, Object::Door { .. }) => true,
        (Object::Brick, Object::Brick) => true,
        (Object::Key { color: c1, .. }, Object::Key { color: c2, .. }) => c1 == c2,
        (Object::Pickaxe { .. }, Object::Pickaxe { .. }) => true,
        (Object::Gem { kind: k1, .. }, Object::Gem { kind: k2, .. }) => k1 == k2,
        (Object::Letter { tile_index: t1 }, Object::Letter { tile_index: t2 }) => t1 == t2,
        (Object::Boulder, Object::Boulder) => true,
        (Object::Balloon, Object::Balloon) => true,
        (Object::AirshipLeft { .. }, Object::AirshipLeft { .. }) => true,
        (Object::AirshipRight { .. }, Object::AirshipRight { .. }) => true,
        (Object::Player, Object::Player) => true,
        (Object::Enemy, Object::Enemy) => true,
        (Object::Lock { color: c1 }, Object::Lock { color: c2 }) => c1 == c2,
        _ => false,
    }
}

impl Object {
    /// A well-formed object: frame offsets lie inside the 6-frame
    /// animation window, and a letter's stored tile index lies inside the
    /// letter ranges of the catalog.
    pub open spec fn wf(self) -> bool {
        match self {
            Object::Key { frame_offset, .. } => frame_offset < 6,
            Object::Pickaxe { frame_offset } => frame_offset < 6,
            Object::Gem { frame_offset, .. } => frame_offset < 6,
            Object::AirshipLeft { frame_offset } => frame_offset < 6,
            Object::AirshipRight { frame_offset } => frame_offset < 6,
            Object::Letter { tile_index } => (82 <= tile_index && tile_index <= 117)
                || tile_index == 190 || tile_index == 191,
            _ => true,
        }
    }

    /// Decodes a raw tile index into an object; an index outside every
    /// known range is rejected.
    pub fn from_tile_number(sprite_number: u8) -> (r: Result<Object, String>)
        ensures
            match r {
                Ok(o) => object_of_tile(sprite_number) == Some(o) && o.wf(),
                Err(m) => object_of_tile(sprite_number) is None && m@ == invalid_tile_message(
                    sprite_number,
                ),
            },
    {
        match sprite_number {
            0..=15 | 32 => Ok(Object::Dirt { north: false, east: false, south: false, west: false }),
            16..=31 | 33 => Ok(Object::Wall { north: false, east: false, south: false, west: false }),
            34 | 189 => Ok(Object::Empty),
            35..=38 => Ok(Object::Door { frame_offset: 0 }),
            39 => Ok(Object::Brick),
            40..=45 => Ok(
                Object::Key { color: KeyColor::Yellow, frame_offset: sprite_number - 40 },
            ),
            46..=51 => Ok(Object::Key { color: KeyColor::Red, frame_offset: sprite_number - 46 }),
            52..=57 => Ok(Object::Key { color: KeyColor::Grey, frame_offset: sprite_number - 52 }),
            58..=63 => Ok(Object::Pickaxe { frame_offset: sprite_number - 58 }),
            64..=69 => Ok(Object::Gem { kind: GemKind::Gem1, frame_offset: sprite_number - 64 }),
            70..=75 => Ok(Object::Gem { kind: GemKind::Gem2, frame_offset: sprite_number - 70 }),
            76..=81 => Ok(Object::Gem { kind: GemKind::Gem3, frame_offset: sprite_number - 76 }),
            82..=117 | 190 | 191 => Ok(Object::Letter { tile_index: sprite_number }),
            118 => Ok(Object::Boulder),
            119 => Ok(Object::Balloon),
            120..=125 => Ok(Object::AirshipLeft { frame_offset: sprite_number - 120 }),
            126..=131 => Ok(Object::AirshipRight { frame_offset: sprite_number - 126 }),
            132..=161 => Ok(Object::Player),
            162..=185 => Ok(Object::Enemy),
            186 => Ok(Object::Lock { color: KeyColor::Yellow }),
            187 => Ok(Object::Lock { color: KeyColor::Red }),
            188 => Ok(Object::Lock { color: KeyColor::Grey }),
            _ => {
                let mut message = String::from_str("invalid sprite number ");
                let digits = usize_to_string(sprite_number as usize);
                message.append(digits.as_str());
                Err(message)
            },
        }
    }

    /// The tile index this object displays as at the given tick.
    pub fn tile_number(self, tick_number: u8) -> (r: u8)
        ensures
            r == tile_of_object(self, tick_number),
    {
        match self {
            Object::Dirt { north, east, south, west } => (if north {
                1u8
            } else {
                0u8
            }) + (if east {
                2u8
            } else {
                0u8
            }) + (if south {
                4u8
            } else {
                0u8
            }) + (if west {
                8u8
            } else {
                0u8
            }),
            Object::Wall { north, east, south, west } => 16u8 + (if north {
                1u8
            } else {
                0u8
            }) + (if east {
                2u8
            } else {
                0u8
            }) + (if south {
                4u8
            } else {
                0u8
            }) + (if west {
                8u8
            } else {
                0u8
            }),
            Object::Empty => 34,
            Object::Door { .. } => 35,
            Object::Brick => 39,
            Object::Key { color, frame_offset } => {
                let frame = ((frame_offset as u16 + tick_number as u16) % 6) as u8;
                match color {
                    KeyColor::Yellow => 40 + frame,
                    KeyColor::Red => 46 + frame,
                    KeyColor::Grey => 52 + frame,
                }
            },
            Object::Pickaxe { frame_offset } => 58 + ((frame_offset as u16 + tick_number as u16)
                % 6) as u8,
            Object::Gem { kind, frame_offset } => {
                let frame = ((frame_offset as u16 + tick_number as u16) % 6) as u8;
                match kind {
                    GemKind::Gem1 => 64 + frame,
                    GemKind::Gem2 => 70 + frame,
                    GemKind::Gem3 => 76 + frame,
                }
            },
            Object::Letter { tile_index } => tile_index,
            Object::Boulder => 118,
            Object::Balloon => 119,
            Object::AirshipLeft { frame_offset } => 120 + ((frame_offset as u16
                + tick_number as u16) % 6) as u8,
            Object::AirshipRight { frame_offset } => 126 + ((frame_offset as u16
                + tick_number as u16) % 6) as u8,
            Object::Player => 156,
            Object::Enemy => 180,
            Object::Lock { color } => match color {
                KeyColor::Yellow => 186,
                KeyColor::Red => 187,
                KeyColor::Grey => 188,
            },
        }
    }

    /// Whether this object lets the background show through (does not
    /// block sight), so a joined Dirt neighbor renders an open edge
    /// toward it.
    pub fn is_transparent(self) -> (r: bool)
        ensures
            r == self.spec_is_transparent(),
    {
        match self {
            Object::Gem { .. }
            | Object::Boulder
            | Object::Balloon
            | Object::AirshipLeft { .. }
            | Object::AirshipRight { .. }
            | Object::Player
            | Object::Enemy => true,
            _ => false,
        }
    }

    pub open spec fn spec_is_transparent(self) -> bool {
        match self {
            Object::Gem { .. } => true,
            Object::Boulder => true,
            Object::Balloon => true,
            Object::AirshipLeft { .. } => true,
            Object::AirshipRight { .. } => true,
            Object::Player => true,
            Object::Enemy => true,
            _ => false,
        }
    }

    /// Whether the player may move onto a cell holding this object
    /// (picking it up where it is a collectible).
    pub fn can_be_entered(self) -> (r: bool)
        ensures
            r == self.spec_can_be_entered(),
    {
        match self {
            Object::Empty
            | Object::Dirt { .. }
            | Object::Key { .. }
            | Object::Pickaxe { .. }
            | Object::Gem { .. }
            | Object::Letter { .. } => true,
            _ => false,
        }
    }

    pub open spec fn spec_can_be_entered(self) -> bool {
        match self {
            Object::Empty => true,
            Object::Dirt { .. } => true,
            Object::Key { .. } => true,
            Object::Pickaxe { .. } => true,
            Object::Gem { .. } => true,
            Object::Letter { .. } => true,
            _ => false,
        }
    }
}

/// Law: decoding the tile index that a well-formed object displays as
/// yields an object of the same variant; animation frames and adjacency
/// edges normalize to the catalog's canonical representative.
pub proof fn lemma_tile_number_round_trip(obj: Object, tick: u8)
    requires
        obj.wf(),
    ensures
        object_of_tile((tile_of_object(obj, tick)) as u8) matches Some(back) && same_variant(
            obj,
            back,
        ),
{
}

} // verus!
