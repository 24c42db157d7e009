//! The simulation engine: the one-time adjacency pass that joins Dirt and
//! Wall sprites to their neighbors, and the per-tick update that settles
//! pending half-tile slides, moves the player by the current intents, and
//! clears the per-tick flags.

use vstd::prelude::*;

use crate::level::{Cell, Direction, Level};
use crate::objects::Object;

verus! {

/// The player's movement intents for one tick.
#[derive(Copy, Clone, Debug, PartialEq, Eq, Structural)]
pub struct Intents {
    pub left: bool,
    pub right: bool,
    pub up: bool,
    pub down: bool,
}

impl Intents {
    /// No direction is requested.
    pub open spec fn is_empty(self) -> bool {
        !self.left && !self.right && !self.up && !self.down
    }
}

/// The cell at `(x, y)` of a row-major map of the given width, if its
/// index lies inside the map.
pub open spec fn cell_at(m: Seq<Cell>, w: int, x: int, y: int) -> Option<Cell> {
    if 0 <= y * w + x < m.len() {
        Some(m[y * w + x])
    } else {
        None
    }
}

/// Whether the cell holds a wall.
pub open spec fn holds_wall(c: Cell) -> bool {
    c.object matches Some(Object::Wall { .. })
}

/// Whether the cell holds the player.
pub open spec fn holds_player(c: Cell) -> bool {
    c.object matches Some(Object::Player)
}

/// One edge of a Dirt cell after the adjacency pass: open exactly when
/// the neighbor on that side is transparent; kept when there is no such
/// neighbor.
pub open spec fn dirt_edge(m: Seq<Cell>, w: int, guard: bool, x: int, y: int, old_edge: bool) -> bool {
    if guard {
        match cell_at(m, w, x, y) {
            Some(neighbor) => neighbor.spec_is_transparent(),
            None => old_edge,
        }
    } else {
        old_edge
    }
}

/// One edge of a Wall cell after the adjacency pass: open exactly when
/// the neighbor on that side is not a wall; kept when there is no such
/// neighbor.
pub open spec fn wall_edge(m: Seq<Cell>, w: int, guard: bool, x: int, y: int, old_edge: bool) -> bool {
    if guard {
        match cell_at(m, w, x, y) {
            Some(neighbor) => !holds_wall(neighbor),
            None => old_edge,
        }
    } else {
        old_edge
    }
}

/// A cell after the adjacency pass: a Dirt or Wall cell has its four
/// edges recomputed from the pre-pass neighbors; every other cell is
/// untouched.
pub open spec fn resolved_cell(m: Seq<Cell>, w: int, h: int, c: Cell) -> Cell {
    match c.object {
        Some(Object::Dirt { north, east, south, west }) => Cell {
            object: Some(
                Object::Dirt {
                    north: dirt_edge(m, w, c.y >= 1, c.x as int, c.y - 1, north),
                    east: dirt_edge(m, w, c.x + 1 < w, c.x + 1, c.y as int, east),
                    south: dirt_edge(m, w, c.y + 1 < h, c.x as int, c.y + 1, south),
                    west: dirt_edge(m, w, c.x >= 1, c.x - 1, c.y as int, west),
                },
            ),
            ..c
        },
        Some(Object::Wall { north, east, south, west }) => Cell {
            object: Some(
                Object::Wall {
                    north: wall_edge(m, w, c.y >= 1, c.x as int, c.y - 1, north),
                    east: wall_edge(m, w, c.x + 1 < w, c.x + 1, c.y as int, east),
                    south: wall_edge(m, w, c.y + 1 < h, c.x as int, c.y + 1, south),
                    west: wall_edge(m, w, c.x >= 1, c.x - 1, c.y as int, west),
                },
            ),
            ..c
        },
        _ => c,
    }
}

/// Recomputes the adjacency edges of every Dirt and Wall cell from its
/// grid neighbors: a Dirt edge opens toward a transparent neighbor, a
/// Wall edge toward anything that is not a wall.  All neighbor lookups
/// read the pre-pass grid, so the result does not depend on scan order.
pub fn resolve_adjacency(level: &mut Level)
    ensures
        final(level).width == old(level).width,
        final(level).height == old(level).height,
        final(level).map@.len() == old(level).map@.len(),
        forall|i: int|
            0 <= i < old(level).map@.len() ==> final(level).map@[i] == resolved_cell(
                old(level).map@,
                old(level).width as int,
                old(level).height as int,
                old(level).map@[i],
            ),
{
    let ghost m0 = level.map@;
    let ghost w = level.width as int;
    let ghost h = level.height as int;
    let len = level.map.len();
    let mut result: Vec<Cell> = Vec::new();
    let mut i: usize = 0;
    while i < len
        invariant
            i <= len,
            len == m0.len(),
            level.map@ == m0,
            level.width as int == w,
            level.height as int == h,
            result@.len() == i,
            forall|j: int| 0 <= j < i ==> result@[j] == resolved_cell(m0, w, h, m0[j]),
        decreases len - i,
    {
        let c = level.map[i];
        let updated = match c.object {
            Some(Object::Dirt { north, east, south, west }) => {
                let mut north = north;
                let mut east = east;
                let mut south = south;
                let mut west = west;
                if c.x >= 1 {
                    if let Some(neighbor) = level.cell(c.x - 1, c.y) {
                        west = neighbor.is_transparent();
                    }
                }
                if (c.x as u32) + 1 < level.width as u32 {
                    if let Some(neighbor) = level.cell(c.x + 1, c.y) {
                        east = neighbor.is_transparent();
                    }
                }
                if c.y >= 1 {
                    if let Some(neighbor) = level.cell(c.x, c.y - 1) {
                        north = neighbor.is_transparent();
                    }
                }
                if (c.y as u32) + 1 < level.height as u32 {
                    if let Some(neighbor) = level.cell(c.x, c.y + 1) {
                        south = neighbor.is_transparent();
                    }
                }
                Cell { object: Some(Object::Dirt { north, east, south, west }), ..c }
            },
            Some(Object::Wall { north, east, south, west }) => {
                let mut north = north;
                let mut east = east;
                let mut south = south;
                let mut west = west;
                if c.x >= 1 {
                    if let Some(neighbor) = level.cell(c.x - 1, c.y) {
                        west = match neighbor.object {
                            Some(Object::Wall { .. }) => false,
                            _ => true,
                        };
                    }
                }
                if (c.x as u32) + 1 < level.width as u32 {
                    if let Some(neighbor) = level.cell(c.x + 1, c.y) {
                        east = match neighbor.object {
                            Some(Object::Wall { .. }) => false,
                            _ => true,
                        };
                    }
                }
                if c.y >= 1 {
                    if let Some(neighbor) = level.cell(c.x, c.y - 1) {
                        north = match neighbor.object {
                            Some(Object::Wall { .. }) => false,
                            _ => true,
                        };
                    }
                }
                if (c.y as u32) + 1 < level.height as u32 {
                    if let Some(neighbor) = level.cell(c.x, c.y + 1) {
                        south = match neighbor.object {
                            Some(Object::Wall { .. }) => false,
                            _ => true,
                        };
                    }
                }
                Cell { object: Some(Object::Wall { north, east, south, west }), ..c }
            },
            _ => c,
        };
        result.push(updated);
        i = i + 1;
    }
    level.map = result;
}

/// The destination of a player entering its new cell from edge `d`, when
/// that destination lies on the `w` x `h` grid.
pub open spec fn destination(x: int, y: int, w: int, h: int, d: Direction) -> Option<(int, int)> {
    match d {
        Direction::East => if x >= 1 {
            Some((x - 1, y))
        } else {
            None
        },
        Direction::West => if x + 1 < w {
            Some((x + 1, y))
        } else {
            None
        },
        Direction::North => if y + 1 < h {
            Some((x, y + 1))
        } else {
            None
        },
        Direction::South => if y >= 1 {
            Some((x, y - 1))
        } else {
            None
        },
    }
}

/// A source cell after the player has left it.
pub open spec fn vacated(c: Cell) -> Cell {
    Cell { object: None, post_occupied: true, changed_in_current_tick: true, ..c }
}

/// A destination cell after the player has entered it from edge `d`; its
/// previous object is discarded (the implicit pickup).
pub open spec fn entered(c: Cell, d: Direction) -> Cell {
    Cell {
        object: Some(Object::Player),
        pre_occupied: true,
        changed_in_current_tick: true,
        moving_in_from: Some(d),
        ..c
    }
}

/// The map after one move attempt from `(x, y)` entering from edge `d`:
/// unchanged when the source or the destination lies off the grid or the
/// destination cannot be entered; otherwise the source is vacated and the
/// destination entered.
pub open spec fn move_attempt(m: Seq<Cell>, w: int, h: int, x: int, y: int, d: Direction) -> Seq<
    Cell,
> {
    let src = y * w + x;
    if !(0 <= x < w && 0 <= y < h && src < m.len()) {
        m
    } else {
        match destination(x, y, w, h, d) {
            None => m,
            Some((xn, yn)) => {
                let dst = yn * w + xn;
                if dst < m.len() && m[dst].spec_can_be_entered() {
                    m.update(src, vacated(m[src])).update(dst, entered(m[dst], d))
                } else {
                    m
                }
            },
        }
    }
}

/// Moves the player of cell `(x, y)` one cell over, entering the new cell
/// from edge `moving_in_from`; a move whose destination is off the grid
/// or cannot be entered is silently skipped.  The source cell is not
/// required to hold a player: the destination receives one regardless.
pub fn move_player_if_possible(level: &mut Level, x: u16, y: u16, moving_in_from: Direction)
    ensures
        final(level).width == old(level).width,
        final(level).height == old(level).height,
        final(level).map@ == move_attempt(
            old(level).map@,
            old(level).width as int,
            old(level).height as int,
            x as int,
            y as int,
            moving_in_from,
        ),
{
    let cell = match level.cell_checked(x, y) {
        Some(c) => *c,
        None => {
            return ;
        },
    };
    let dest: Option<(u16, u16)> = match moving_in_from {
        Direction::East => if x >= 1 {
            Some((x - 1, y))
        } else {
            None
        },
        Direction::West => if x + 1 < level.width {
            Some((x + 1, y))
        } else {
            None
        },
        Direction::North => if y + 1 < level.height {
            Some((x, y + 1))
        } else {
            None
        },
        Direction::South => if y >= 1 {
            Some((x, y - 1))
        } else {
            None
        },
    };
    let (x_new, y_new) = match dest {
        Some(pair) => pair,
        None => {
            return ;
        },
    };
    let neighbor = match level.cell_checked(x_new, y_new) {
        Some(n) => *n,
        None => {
            return ;
        },
    };
    if neighbor.can_be_entered() {
        level.set_cell(
            x,
            y,
            Cell { object: None, post_occupied: true, changed_in_current_tick: true, ..cell },
        );
        level.set_cell(
            x_new,
            y_new,
            Cell {
                object: Some(Object::Player),
                pre_occupied: true,
                changed_in_current_tick: true,
                moving_in_from: Some(moving_in_from),
                ..neighbor
            },
        );
    }
}

/// A cell after the settle pass: a player still sliding in finishes its
/// half-tile slide.
pub open spec fn settled_cell(c: Cell) -> Cell {
    if holds_player(c) && c.moving_in_from is Some {
        Cell { moving_in_from: None, changed_in_current_tick: true, ..c }
    } else {
        c
    }
}

/// The map after the settle pass.
pub open spec fn settle_map(m: Seq<Cell>) -> Seq<Cell> {
    Seq::new(m.len(), |i: int| settled_cell(m[i]))
}

/// The map after the move pass has looked at position `p`: a player cell
/// not yet changed this tick moves by the first applicable intent, in the
/// priority order left, right, up, down.
pub open spec fn move_step(m: Seq<Cell>, w: int, h: int, it: Intents, p: int) -> Seq<Cell> {
    if 0 <= p < m.len() {
        let c = m[p];
        let x = p % w;
        let y = p / w;
        if holds_player(c) && !c.changed_in_current_tick {
            if it.left && x >= 1 {
                move_attempt(m, w, h, x, y, Direction::East)
            } else if it.right && x + 1 < w {
                move_attempt(m, w, h, x, y, Direction::West)
            } else if it.up && y >= 1 {
                move_attempt(m, w, h, x, y, Direction::South)
            } else if it.down && y + 1 < h {
                move_attempt(m, w, h, x, y, Direction::North)
            } else {
                m
            }
        } else {
            m
        }
    } else {
        m
    }
}

/// The map after the move pass has looked at the first `p` positions in
/// row-major scan order.
pub open spec fn move_pass_prefix(m: Seq<Cell>, w: int, h: int, it: Intents, p: int) -> Seq<Cell>
    decreases p,
{
    if p <= 0 {
        m
    } else {
        move_step(move_pass_prefix(m, w, h, it, p - 1), w, h, it, p - 1)
    }
}

/// A cell after the flag-reset pass.
pub open spec fn cleared_cell(c: Cell) -> Cell {
    Cell { changed_in_current_tick: false, ..c }
}

/// The map after the flag-reset pass.
pub open spec fn clear_map(m: Seq<Cell>) -> Seq<Cell> {
    Seq::new(m.len(), |i: int| cleared_cell(m[i]))
}

/// The map after one full tick: settle, move by the intents, clear the
/// per-tick flags.
pub open spec fn tick_map(m: Seq<Cell>, w: int, h: int, it: Intents) -> Seq<Cell> {
    clear_map(move_pass_prefix(settle_map(m), w, h, it, m.len() as int))
}

fn settle_pass(level: &mut Level)
    ensures
        final(level).width == old(level).width,
        final(level).height == old(level).height,
        final(level).map@ == settle_map(old(level).map@),
{
    let ghost m0 = level.map@;
    let len = level.map.len();
    let mut p: usize = 0;
    while p < len
        invariant
            p <= len,
            len == m0.len(),
            level.map@.len() == len,
            level.width == old(level).width,
            level.height == old(level).height,
            forall|j: int| 0 <= j < p ==> level.map@[j] == settled_cell(m0[j]),
            forall|j: int| p <= j < len ==> level.map@[j] == m0[j],
        decreases len - p,
    {
        let c = level.map[p];
        let player = match c.object {
            Some(Object::Player) => true,
            _ => false,
        };
        if player && c.moving_in_from.is_some() {
            level.map[p] = Cell { moving_in_from: None, changed_in_current_tick: true, ..c };
        }
        p = p + 1;
    }
    proof {
        assert(level.map@ =~= settle_map(m0));
    }
}

fn move_pass(level: &mut Level, intents: Intents)
    requires
        old(level).map@.len() == old(level).width * old(level).height,
    ensures
        final(level).width == old(level).width,
        final(level).height == old(level).height,
        final(level).map@ == move_pass_prefix(
            old(level).map@,
            old(level).width as int,
            old(level).height as int,
            intents,
            old(level).map@.len() as int,
        ),
{
    let ghost m0 = level.map@;
    let ghost w = level.width as int;
    let ghost h = level.height as int;
    let width = level.width;
    let height = level.height;
    let len = level.map.len();
    let mut p: usize = 0;
    while p < len
        invariant
            p <= len,
            len == m0.len(),
            m0.len() == w * h,
            level.width == old(level).width,
            level.height == old(level).height,
            level.width as int == w,
            level.height as int == h,
            width == level.width,
            height == level.height,
            level.map@ == move_pass_prefix(m0, w, h, intents, p as int),
        decreases len - p,
    {
        proof {
            lemma_move_prefix_preserves_positions(m0, w, h, intents, p as int);
            assert(width as int > 0) by (nonlinear_arith)
                requires
                    0 <= p as int,
                    (p as int) < (width as int) * (height as int),
            ;
            assert((p as int) / (width as int) < height as int) by (nonlinear_arith)
                requires
                    0 <= p as int,
                    0 < width as int,
                    (p as int) < (width as int) * (height as int),
            ;
        }
        let x = (p % width as usize) as u16;
        let y = (p / width as usize) as u16;
        let c = level.map[p];
        let player = match c.object {
            Some(Object::Player) => true,
            _ => false,
        };
        if player && !c.changed_in_current_tick {
            if intents.left && x >= 1 {
                move_player_if_possible(level, x, y, Direction::East);
            } else if intents.right && x + 1 < width {
                move_player_if_possible(level, x, y, Direction::West);
            } else if intents.up && y >= 1 {
                move_player_if_possible(level, x, y, Direction::South);
            } else if intents.down && y + 1 < height {
                move_player_if_possible(level, x, y, Direction::North);
            }
        }
        p = p + 1;
    }
}

fn clear_flags_pass(level: &mut Level)
    ensures
        final(level).width == old(level).width,
        final(level).height == old(level).height,
        final(level).map@ == clear_map(old(level).map@),
{
    let ghost m0 = level.map@;
    let len = level.map.len();
    let mut p: usize = 0;
    while p < len
        invariant
            p <= len,
            len == m0.len(),
            level.map@.len() == len,
            level.width == old(level).width,
            level.height == old(level).height,
            forall|j: int| 0 <= j < p ==> level.map@[j] == cleared_cell(m0[j]),
            forall|j: int| p <= j < len ==> level.map@[j] == m0[j],
        decreases len - p,
    {
        let c = level.map[p];
        level.map[p] = Cell { changed_in_current_tick: false, ..c };
        p = p + 1;
    }
    proof {
        assert(level.map@ =~= clear_map(m0));
    }
}

/// Advances the level by one tick: every player still sliding in settles,
/// every player not yet changed this tick moves by the first applicable
/// intent (priority left, right, up, down, scanning the grid row by row),
/// and the per-tick change flags are cleared again.
pub fn advance_tick(level: &mut Level, intents: Intents)
    requires
        old(level).wf(),
    ensures
        final(level).wf(),
        final(level).width == old(level).width,
        final(level).height == old(level).height,
        final(level).map@ == tick_map(
            old(level).map@,
            old(level).width as int,
            old(level).height as int,
            intents,
        ),
{
    let ghost m0 = level.map@;
    let ghost w = level.width as int;
    let ghost h = level.height as int;
    settle_pass(level);
    proof {
        assert(settle_map(m0).len() == m0.len());
    }
    move_pass(level, intents);
    clear_flags_pass(level);
    proof {
        lemma_tick_preserves_wf(m0, w, h, intents);
    }
}

/// Advances the animation tick counter, which wraps modulo 12.
pub fn next_tick(tick_number: u8) -> (r: u8)
    ensures
        r == (tick_number + 1) % 12,
{
    ((tick_number as u16 + 1) % 12) as u8
}

/// The move pass never moves, resizes or renames cells: every cell keeps
/// its position fields.
proof fn lemma_move_prefix_preserves_positions(m: Seq<Cell>, w: int, h: int, it: Intents, p: int)
    ensures
        move_pass_prefix(m, w, h, it, p).len() == m.len(),
        forall|i: int|
            0 <= i < m.len() ==> (#[trigger] move_pass_prefix(m, w, h, it, p)[i]).x == m[i].x
                && move_pass_prefix(m, w, h, it, p)[i].y == m[i].y,
    decreases p,
{
    if p > 0 {
        lemma_move_prefix_preserves_positions(m, w, h, it, p - 1);
    }
}

/// A full tick preserves the grid invariant.
proof fn lemma_tick_preserves_wf(m: Seq<Cell>, w: int, h: int, it: Intents)
    ensures
        tick_map(m, w, h, it).len() == m.len(),
        forall|i: int|
            0 <= i < m.len() ==> (#[trigger] tick_map(m, w, h, it)[i]).x == m[i].x && tick_map(
                m,
                w,
                h,
                it,
            )[i].y == m[i].y,
{
    lemma_move_prefix_preserves_positions(settle_map(m), w, h, it, m.len() as int);
}

/// With no intents the move pass is a no-op.
proof fn lemma_move_prefix_empty(m: Seq<Cell>, w: int, h: int, it: Intents, p: int)
    requires
        it.is_empty(),
    ensures
        move_pass_prefix(m, w, h, it, p) == m,
    decreases p,
{
    if p > 0 {
        lemma_move_prefix_empty(m, w, h, it, p - 1);
    }
}

/// Law: a tick with no intents, on a grid where no cell is still sliding
/// in, reaches a fixpoint: running a second such tick changes nothing.
pub proof fn lemma_tick_idempotent(m: Seq<Cell>, w: int, h: int, it: Intents)
    requires
        it.is_empty(),
        forall|i: int| 0 <= i < m.len() ==> (#[trigger] m[i]).moving_in_from is None,
    ensures
        tick_map(tick_map(m, w, h, it), w, h, it) == tick_map(m, w, h, it),
{
    lemma_move_prefix_empty(settle_map(m), w, h, it, m.len() as int);
    assert(settle_map(m) =~= m);
    assert(tick_map(m, w, h, it) == clear_map(m));
    let c = clear_map(m);
    assert(settle_map(c) =~= c);
    lemma_move_prefix_empty(settle_map(c), w, h, it, c.len() as int);
    assert(clear_map(c) =~= c);
    assert(tick_map(c, w, h, it) == clear_map(c));
}

} // verus!
