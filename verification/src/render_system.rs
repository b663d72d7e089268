use vstd::prelude::*;

use crate::components::{color_from_str, spec_color_of, Color, Position, RenderableV};
use crate::numfmt::{dec_int, i32_string};
use crate::text::push_char;
use crate::world::{EntityId, World};

verus! {

/// The empty log grid: 20 rows of 20 columns, row-major, all dots.
pub open spec fn empty_grid() -> Seq<char> {
    Seq::new(400, |i: int| '.')
}

/// Stamps one glyph into the flat row-major grid if its position lies
/// on the 20 x 20 field; a position off the field is skipped, which is
/// not an error.
pub open spec fn stamp(g: Seq<char>, p: Position, glyph: char) -> Seq<char> {
    if 0 <= p.x < 20 && 0 <= p.y < 20 {
        g.update(p.y * 20 + p.x, glyph)
    } else {
        g
    }
}

/// The grid after the first `k` render items have stamped their
/// glyphs, in query order.
pub open spec fn grid_upto(items: Seq<(EntityId, Position, RenderableV)>, k: int) -> Seq<char>
    decreases k,
{
    if k <= 0 {
        empty_grid()
    } else {
        stamp(grid_upto(items, k - 1), items[k - 1].1, items[k - 1].2.glyph)
    }
}

/// The log grid of a world: every in-range rendered entity stamped in
/// query order, a later entity overwriting an earlier one on the same
/// cell.
pub open spec fn grid_of(w: World) -> Seq<char> {
    grid_upto(w.render_items(), w.render_items().len() as int)
}

/// The log grid always holds exactly 20 rows of 20 columns — 400
/// cells — whatever the entities are and wherever they stand.
pub proof fn lemma_grid_dims(items: Seq<(EntityId, Position, RenderableV)>, k: int)
    ensures
        grid_upto(items, k).len() == 400,
    decreases k,
{
    if k > 0 {
        lemma_grid_dims(items, k - 1);
    }
}

/// A cell that no rendered entity stands on keeps the background dot.
pub proof fn lemma_grid_cell_background(
    items: Seq<(EntityId, Position, RenderableV)>,
    k: int,
    x: int,
    y: int,
)
    requires
        0 <= x < 20,
        0 <= y < 20,
        forall|j: int| 0 <= j < k ==> !((#[trigger] items[j].1).x == x && items[j].1.y == y),
    ensures
        grid_upto(items, k)[y * 20 + x] == '.',
    decreases k,
{
    if k > 0 {
        lemma_grid_cell_background(items, k - 1, x, y);
        lemma_grid_dims(items, k - 1);
        let p = items[k - 1].1;
        if 0 <= p.x < 20 && 0 <= p.y < 20 {
            if p.y == y {
                assert(p.x != x);
            }
            assert(p.y * 20 + p.x != y * 20 + x);
        }
    }
}

/// A cell shows the glyph of the last entity stamped on it: entity `j`
/// stands on the grid and no later entity shares its cell, so after
/// the first `k` stamps the cell holds `j`'s glyph.
pub proof fn lemma_grid_cell_glyph(items: Seq<(EntityId, Position, RenderableV)>, k: int, j: int)
    requires
        0 <= j < k,
        0 <= items[j].1.x < 20,
        0 <= items[j].1.y < 20,
        forall|t: int|
            j < t < k ==> !((#[trigger] items[t].1).x == items[j].1.x && items[t].1.y
                == items[j].1.y),
    ensures
        grid_upto(items, k)[items[j].1.y * 20 + items[j].1.x] == items[j].2.glyph,
    decreases k,
{
    lemma_grid_dims(items, k - 1);
    if k == j + 1 {
    } else {
        lemma_grid_cell_glyph(items, k - 1, j);
        let p = items[k - 1].1;
        if 0 <= p.x < 20 && 0 <= p.y < 20 {
            if p.y == items[j].1.y {
                assert(p.x != items[j].1.x);
            }
            assert(p.y * 20 + p.x != items[j].1.y * 20 + items[j].1.x);
        }
    }
}

/// Builds the 20 x 20 log grid for the current state: a dot background
/// with each in-range rendered entity's glyph stamped at its position.
pub fn build_grid(w: &World) -> (g: Vec<char>)
    requires
        w.wf(),
    ensures
        g@ == grid_of(*w),
        g@.len() == 400,
{
    let mut g: Vec<char> = Vec::new();
    let mut i: usize = 0;
    while i < 400
        invariant
            i <= 400,
            g@ =~= Seq::new(i as nat, |j: int| '.'),
        decreases 400 - i,
    {
        g.push('.');
        i += 1;
    }
    proof {
        assert(g@ =~= empty_grid());
    }
    let items = w.query_render();
    let ghost sitems = w.render_items();
    let n = items.len();
    let mut t: usize = 0;
    while t < n
        invariant
            n == sitems.len(),
            items@.len() == n,
            t <= n,
            forall|j: int|
                0 <= j < n ==> (#[trigger] items@[j]).1 == sitems[j].1 && items@[j].2@
                    == sitems[j].2,
            g@ == grid_upto(sitems, t as int),
            g@.len() == 400,
        decreases n - t,
    {
        let p = items[t].1;
        let glyph = items[t].2.glyph;
        if p.x >= 0 && p.x < 20 && p.y >= 0 && p.y < 20 {
            let idx: usize = (p.y as usize) * 20 + (p.x as usize);
            g[idx] = glyph;
        }
        proof {
            assert(g@ =~= grid_upto(sitems, t + 1));
        }
        t += 1;
    }
    g
}

/// The grid as 20 strings of 20 characters each, top row first —
/// exactly the rows the log records for one frame.
pub fn grid_lines(g: &Vec<char>) -> (lines: Vec<String>)
    requires
        g@.len() == 400,
    ensures
        lines@.len() == 20,
        forall|r: int| 0 <= r < 20 ==> (#[trigger] lines@[r])@ == g@.subrange(r * 20, r * 20 + 20),
{
    let mut lines: Vec<String> = Vec::new();
    let mut r: usize = 0;
    while r < 20
        invariant
            g@.len() == 400,
            r <= 20,
            lines@.len() == r,
            forall|q: int|
                0 <= q < r ==> (#[trigger] lines@[q])@ == g@.subrange(q * 20, q * 20 + 20),
        decreases 20 - r,
    {
        let mut line = String::new();
        let mut c: usize = 0;
        while c < 20
            invariant
                g@.len() == 400,
                r < 20,
                c <= 20,
                line@ =~= g@.subrange(r as int * 20, r as int * 20 + c),
            decreases 20 - c,
        {
            push_char(&mut line, g[r * 20 + c]);
            proof {
                assert(line@ =~= g@.subrange(r as int * 20, r as int * 20 + c + 1));
            }
            c += 1;
        }
        lines.push(line);
        r += 1;
    }
    lines
}

/// One rendered entity's dump line: the x and y coordinates run
/// together without a separator (the log format writes them back to
/// back), then the glyph in quotes and the two color names.
pub open spec fn entity_line(p: Position, r: RenderableV) -> Seq<char> {
    dec_int(p.x as int) + dec_int(p.y as int) + " '"@ + seq![r.glyph] + "' fg:"@ + r.fg + " bg:"@
        + r.bg
}

/// Writes one rendered entity's dump line.
pub fn entity_line_string(p: Position, r: &crate::components::Renderable) -> (s: String)
    ensures
        s@ == entity_line(p, r@),
{
    let mut s = i32_string(p.x);
    let t = i32_string(p.y);
    s.append(t.as_str());
    s.append(" '");
    push_char(&mut s, r.glyph);
    s.append("' fg:");
    s.append(r.fg.as_str());
    s.append(" bg:");
    s.append(r.bg.as_str());
    proof {
        assert(s@ =~= entity_line(p, r@));
    }
    s
}

/// The grid rows of a world's log entry.
pub open spec fn grid_line_seqs(w: World) -> Seq<Seq<char>> {
    Seq::new(20, |r: int| grid_of(w).subrange(r * 20, r * 20 + 20))
}

/// The entity dump lines of a world's log entry, in query order.
pub open spec fn entity_line_seqs(w: World) -> Seq<Seq<char>> {
    Seq::new(
        w.render_items().len(),
        |j: int| entity_line(w.render_items()[j].1, w.render_items()[j].2),
    )
}

/// A whole frame's log entry: the delimiter line, the 20 grid rows, a
/// blank line, the entity dump, and a closing blank line.
pub open spec fn frame_log(w: World) -> Seq<Seq<char>> {
    seq!["--- Frame ---"@] + grid_line_seqs(w) + seq![Seq::<char>::empty()] + entity_line_seqs(w)
        + seq![Seq::<char>::empty()]
}

/// One instruction to the terminal driver. The library computes a
/// frame's whole instruction list; executing it against the real
/// terminal is the surrounding driver's job.
#[derive(PartialEq, Eq, Structural, Clone, Copy, Debug)]
pub enum DrawOp {
    /// Clear the whole screen.
    ClearAll,
    /// Move the cursor to (col, row) and print one styled glyph, then
    /// reset the colors.
    Glyph { col: u16, row: u16, fg: Color, bg: Color, glyph: char },
    /// Move the cursor to the start of the given row and print the
    /// fixed help line.
    StatusLine { row: u16 },
}

/// The glyph instruction of one rendered entity: the coordinates are
/// taken to the terminal's u16 range exactly as the cursor move would
/// truncate them, and the two color names are resolved to the palette.
pub open spec fn glyph_op(p: Position, r: RenderableV) -> DrawOp {
    DrawOp::Glyph {
        col: p.x as u16,
        row: p.y as u16,
        fg: spec_color_of(r.fg),
        bg: spec_color_of(r.bg),
        glyph: r.glyph,
    }
}

/// A frame's full instruction list: clear the screen, draw every
/// rendered entity in query order (the live draw is not clamped to the
/// 20 x 20 log grid), then the help line on the row under the field.
pub open spec fn draw_ops_of(w: World) -> Seq<DrawOp> {
    seq![DrawOp::ClearAll] + Seq::new(
        w.render_items().len(),
        |j: int| glyph_op(w.render_items()[j].1, w.render_items()[j].2),
    ) + seq![DrawOp::StatusLine { row: 20 }]
}

/// The fixed help line drawn under the play field.
pub fn status_text() -> (s: String)
    ensures
        s@ == "[ESC] Quit | Use Arrow Keys or WASD to move"@,
{
    String::from_str("[ESC] Quit | Use Arrow Keys or WASD to move")
}

/// Computes a frame's drawing instructions from the current state.
pub fn draw_ops(w: &World) -> (ops: Vec<DrawOp>)
    requires
        w.wf(),
    ensures
        ops@ == draw_ops_of(*w),
{
    let items = w.query_render();
    let ghost sitems = w.render_items();
    let mut ops: Vec<DrawOp> = Vec::new();
    ops.push(DrawOp::ClearAll);
    let n = items.len();
    let mut j: usize = 0;
    while j < n
        invariant
            n == sitems.len(),
            items@.len() == n,
            j <= n,
            forall|q: int|
                0 <= q < n ==> (#[trigger] items@[q]).1 == sitems[q].1 && items@[q].2@
                    == sitems[q].2,
            ops@.len() == 1 + j,
            ops@[0] == DrawOp::ClearAll,
            forall|q: int| 0 <= q < j ==> ops@[1 + q] == glyph_op(sitems[q].1, sitems[q].2),
        decreases n - j,
    {
        let p = items[j].1;
        let col: u16 = #[verifier::truncate] (p.x as u16);
        let row: u16 = #[verifier::truncate] (p.y as u16);
        let fg = color_from_str(items[j].2.fg.as_str());
        let bg = color_from_str(items[j].2.bg.as_str());
        ops.push(DrawOp::Glyph { col, row, fg, bg, glyph: items[j].2.glyph });
        j += 1;
    }
    ops.push(DrawOp::StatusLine { row: 20 });
    proof {
        assert(ops@ =~= draw_ops_of(*w));
    }
    ops
}

/// What one run of the render stage produces: the terminal instructions
/// and the lines appended to the game log.
pub struct Frame {
    pub ops: Vec<DrawOp>,
    pub log_lines: Vec<String>,
}

/// The render stage. It reads the entity state as the previous tick
/// left it and never mutates it; the instructions it returns are
/// executed, and the log lines appended, by the surrounding driver.
pub struct RenderSystem;

impl RenderSystem {
    /// One run of the stage: the whole frame for the current state.
    pub fn run(&self, world: &World) -> (f: Frame)
        requires
            world.wf(),
        ensures
            f.ops@ == draw_ops_of(*world),
            f.log_lines@.len() == frame_log(*world).len(),
            forall|i: int|
                0 <= i < f.log_lines@.len() ==> (#[trigger] f.log_lines@[i])@ == frame_log(
                    *world,
                )[i],
    {
        let ops = draw_ops(world);
        let grid = build_grid(world);
        let glines = grid_lines(&grid);
        let items = world.query_render();
        let ghost sitems = world.render_items();
        let n = items.len();
        let mut log: Vec<String> = Vec::new();
        log.push(String::from_str("--- Frame ---"));
        let mut r: usize = 0;
        while r < 20
            invariant
                glines@.len() == 20,
                forall|q: int|
                    0 <= q < 20 ==> (#[trigger] glines@[q])@ == grid_of(*world).subrange(
                        q * 20,
                        q * 20 + 20,
                    ),
                r <= 20,
                log@.len() == 1 + r,
                log@[0]@ == "--- Frame ---"@,
                forall|q: int|
                    1 <= q < 1 + r ==> (#[trigger] log@[q])@ == grid_of(*world).subrange(
                        (q - 1) * 20,
                        (q - 1) * 20 + 20,
                    ),
            decreases 20 - r,
        {
            log.push(glines[r].clone());
            r += 1;
        }
        log.push(String::new());
        let mut j: usize = 0;
        while j < n
            invariant
                n == sitems.len(),
                items@.len() == n,
                j <= n,
                forall|q: int|
                    0 <= q < n ==> (#[trigger] items@[q]).1 == sitems[q].1 && items@[q].2@
                        == sitems[q].2,
                log@.len() == 22 + j,
                log@[0]@ == "--- Frame ---"@,
                forall|q: int|
                    1 <= q < 21 ==> (#[trigger] log@[q])@ == grid_of(*world).subrange(
                        (q - 1) * 20,
                        (q - 1) * 20 + 20,
                    ),
                log@[21]@ == Seq::<char>::empty(),
                forall|q: int|
                    22 <= q < 22 + j ==> (#[trigger] log@[q])@ == entity_line(
                        sitems[q - 22].1,
                        sitems[q - 22].2,
                    ),
            decreases n - j,
        {
            log.push(entity_line_string(items[j].1, &items[j].2));
            j += 1;
        }
        log.push(String::new());
        proof {
            assert(log@[22 + n as int]@ == Seq::<char>::empty());
            assert forall|i: int| 0 <= i < log@.len() implies (#[trigger] log@[i])@ == frame_log(
                *world,
            )[i] by {
                let fl = frame_log(*world);
                if i == 0 {
                    assert(fl[0] == "--- Frame ---"@);
                } else if i < 21 {
                    assert(fl[i] == grid_line_seqs(*world)[i - 1]);
                    assert(grid_line_seqs(*world)[i - 1] == grid_of(*world).subrange(
                        (i - 1) * 20,
                        (i - 1) * 20 + 20,
                    ));
                } else if i == 21 {
                    assert(fl[i] == Seq::<char>::empty());
                } else if i < 22 + n {
                    assert(fl[i] == entity_line_seqs(*world)[i - 22]);
                    assert(entity_line_seqs(*world)[i - 22] == entity_line(
                        sitems[i - 22].1,
                        sitems[i - 22].2,
                    ));
                } else {
                    assert(fl[i] == Seq::<char>::empty());
                }
            }
            assert(log@.len() == frame_log(*world).len());
        }
        Frame { ops, log_lines: log }
    }
}

} // verus!
