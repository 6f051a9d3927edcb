use vstd::prelude::*;
use crate::display::{Display, pixel_at};
use vstd::arithmetic::div_mod::lemma_fundamental_div_mod_converse;

verus! {

/// Where and how large the screen is drawn in a terminal. One terminal cell
/// shows one column and two rows of logical pixels; each emulated pixel is a
/// `pixel`×`pixel` block of logical pixels.
#[derive(Debug, Copy, Clone, PartialEq, Eq, Structural)]
pub struct RenderMetadata {
    pub terminal_w: u16,
    pub terminal_h: u16,
    pub origin_x: u16,
    pub origin_y: u16,
    pub out_w: u16,
    pub out_h: u16,
    pub draw_h_cells: u16,
    pub pixel: u16,
}

/// The layout of the screen in a terminal of `w`×`h` cells: the largest
/// whole scale that fits (at least 1), centred.
pub open spec fn layout_spec(w: u16, h: u16) -> RenderMetadata {
    let max_out_h: int = if 2 * h > 65535 { 65535 } else { 2 * h };
    let by_w: int = w as int / 64;
    let by_h: int = max_out_h / 32;
    let fit: int = if by_w < by_h { by_w } else { by_h };
    let pixel: int = if fit < 1 { 1 } else { fit };
    let out_w: int = 64 * pixel;
    let out_h: int = 32 * pixel;
    let cells: int = (out_h + 1) / 2;
    RenderMetadata {
        terminal_w: w,
        terminal_h: h,
        origin_x: ((if w > out_w { w - out_w } else { 0 }) / 2) as u16,
        origin_y: ((if h > cells { h - cells } else { 0 }) / 2) as u16,
        out_w: out_w as u16,
        out_h: out_h as u16,
        draw_h_cells: cells as u16,
        pixel: pixel as u16,
    }
}

impl RenderMetadata {
    /// The layout of the screen in a terminal of `terminal_size` cells.
    pub fn for_terminal(terminal_size: (u16, u16)) -> (r: Self)
        ensures
            r == layout_spec(terminal_size.0, terminal_size.1),
            1 <= r.pixel,
            r.out_w == 64 * r.pixel,
            r.out_h == 32 * r.pixel,
    {
        let (term_w, term_h) = terminal_size;
        let max_out_w = term_w;
        let max_out_h: u16 = if term_h > 32767 { u16::MAX } else { term_h * 2 };
        let by_w = max_out_w / 64;
        let by_h = max_out_h / 32;
        let fit = if by_w < by_h { by_w } else { by_h };
        let pixel = if fit < 1 { 1 } else { fit };
        let out_w = 64 * pixel;
        let out_h = 32 * pixel;
        let draw_h_cells = out_h / 2 + out_h % 2;
        let origin_x = centered_origin(term_w, out_w);
        let origin_y = centered_origin(term_h, draw_h_cells);
        RenderMetadata { terminal_w: term_w, terminal_h: term_h, origin_x, origin_y, out_w, out_h, draw_h_cells, pixel }
    }
}

/// The size to lay the screen out in when the terminal reports `size`: a
/// terminal that reports no size at all counts as 64×32 cells.
pub fn usable_terminal_size(size: (u16, u16)) -> (r: (u16, u16))
    ensures
        r == (if size.0 == 0 && size.1 == 0 { (64u16, 32u16) } else { size }),
{
    if size.0 == 0 && size.1 == 0 {
        (Display::VIDEO_WIDTH as u16, Display::VIDEO_HEIGHT as u16)
    } else {
        size
    }
}

/// Where a block of `inner` cells starts when centred in `outer` cells; at
/// the start when it does not fit.
pub fn centered_origin(outer: u16, inner: u16) -> (r: u16)
    ensures
        r == (if outer > inner { (outer - inner) / 2 } else { 0 }),
{
    outer.saturating_sub(inner) / 2
}

/// Whether logical pixel `(dx, dy)` of the drawn picture is lit.
pub open spec fn sample_spec(board: Seq<u64>, meta: RenderMetadata, dx: int, dy: int) -> bool {
    pixel_at(board, (dx / meta.pixel as int) as u8, (dy / meta.pixel as int) as u8)
}

/// The picture magnifies the screen: emulated pixel `(sx, sy)` covers the
/// `pixel`×`pixel` block of logical pixels from `(pixel * sx, pixel * sy)`,
/// each of which shows it; so a logical pixel shows the same as the top-left
/// corner of its block.
pub proof fn lemma_sample_magnifies(board: Seq<u64>, meta: RenderMetadata, sx: int, sy: int, a: int, b: int, dx: int, dy: int)
    requires
        meta.pixel >= 1,
        0 <= sx < 64,
        0 <= sy < 32,
        0 <= a < meta.pixel,
        0 <= b < meta.pixel,
    ensures
        sample_spec(board, meta, meta.pixel * sx + a, meta.pixel * sy + b) == pixel_at(board, sx as u8, sy as u8),
        sample_spec(board, meta, dx, dy) == sample_spec(
            board,
            meta,
            meta.pixel * (dx / meta.pixel as int),
            meta.pixel * (dy / meta.pixel as int),
        ),
{
    let p = meta.pixel as int;
    assert(meta.pixel * sx == sx * p) by (nonlinear_arith) requires p == meta.pixel;
    assert(meta.pixel * sy == sy * p) by (nonlinear_arith) requires p == meta.pixel;
    lemma_fundamental_div_mod_converse(sx * p + a, p, sx, a);
    lemma_fundamental_div_mod_converse(sy * p + b, p, sy, b);
    let qx = dx / p;
    let qy = dy / p;
    assert(meta.pixel * qx == qx * p) by (nonlinear_arith) requires p == meta.pixel;
    assert(meta.pixel * qy == qy * p) by (nonlinear_arith) requires p == meta.pixel;
    lemma_fundamental_div_mod_converse(qx * p, p, qx, 0);
    lemma_fundamental_div_mod_converse(qy * p, p, qy, 0);
}

/// Whether column `dx` of terminal row `cell_y` must be drawn again: always
/// without a previous picture, otherwise when its top or (if there is one)
/// bottom logical pixel differs from the previous picture.
pub open spec fn column_changed(board: Seq<u64>, last: Option<Seq<u64>>, meta: RenderMetadata, cell_y: int, dx: int) -> bool {
    match last {
        None => true,
        Some(prev) => {
            let top = 2 * cell_y;
            let bottom = top + 1;
            sample_spec(board, meta, dx, top) != sample_spec(prev, meta, dx, top) || (bottom < meta.out_h
                && sample_spec(board, meta, dx, bottom) != sample_spec(prev, meta, dx, bottom))
        },
    }
}

/// The runs `[start, end)` of changed columns among the first `n` columns,
/// given as the runs closed so far and the start of the open run, if any.
pub open spec fn runs_upto(board: Seq<u64>, last: Option<Seq<u64>>, meta: RenderMetadata, cell_y: int, n: int) -> (Seq<(u16, u16)>, Option<u16>)
    decreases n,
{
    if n <= 0 {
        (Seq::empty(), None)
    } else {
        let (runs, open) = runs_upto(board, last, meta, cell_y, n - 1);
        let changed = column_changed(board, last, meta, cell_y, n - 1);
        match (open, changed) {
            (None, true) => (runs, Some((n - 1) as u16)),
            (Some(start), false) => (runs.push((start, (n - 1) as u16)), None),
            _ => (runs, open),
        }
    }
}

/// The maximal runs `[start, end)` of changed columns of terminal row `cell_y`.
pub open spec fn changed_runs_spec(board: Seq<u64>, last: Option<Seq<u64>>, meta: RenderMetadata, cell_y: int) -> Seq<(u16, u16)> {
    let (runs, open) = runs_upto(board, last, meta, cell_y, meta.out_w as int);
    match open {
        Some(start) => runs.push((start, meta.out_w)),
        None => runs,
    }
}

/// Whether column `dx` lies in one of the runs `[start, end)`.
pub open spec fn in_some_run(runs: Seq<(u16, u16)>, dx: int) -> bool {
    exists|k: int| 0 <= k < runs.len() && #[trigger] runs[k].0 <= dx && dx < runs[k].1
}

/// A column lies in the runs with one more run appended exactly when it lies
/// in the old runs or in the new one.
proof fn lemma_in_some_run_push(runs: Seq<(u16, u16)>, r: (u16, u16), dx: int)
    ensures
        in_some_run(runs.push(r), dx) <==> (in_some_run(runs, dx) || (r.0 <= dx && dx < r.1)),
{
    let all = runs.push(r);
    if in_some_run(runs, dx) {
        let k = choose|k: int| 0 <= k < runs.len() && #[trigger] runs[k].0 <= dx && dx < runs[k].1;
        assert(all[k] == runs[k]);
    }
    if r.0 <= dx && dx < r.1 {
        assert(all[runs.len() as int] == r);
    }
    if in_some_run(all, dx) {
        let k = choose|k: int| 0 <= k < all.len() && #[trigger] all[k].0 <= dx && dx < all[k].1;
        if k < runs.len() {
            assert(runs[k] == all[k]);
        }
    }
}

/// What holds of the runs found among the first `n` columns: they end by
/// column `n`, an open run starts before `n`, and a column below `n` changed
/// exactly when a closed run holds it or it lies in the open run.
proof fn lemma_runs_upto(board: Seq<u64>, last: Option<Seq<u64>>, meta: RenderMetadata, cell_y: int, n: int)
    requires
        0 <= n <= meta.out_w,
    ensures
        ({
            let (runs, open) = runs_upto(board, last, meta, cell_y, n);
            &&& forall|k: int| 0 <= k < runs.len() ==> #[trigger] runs[k].1 <= n
            &&& open matches Some(s) ==> s < n
            &&& forall|dx: int| 0 <= dx < n ==> (column_changed(board, last, meta, cell_y, dx) <==> (in_some_run(runs, dx)
                || (open matches Some(s) && s <= dx)))
        }),
    decreases n,
{
    if n > 0 {
        lemma_runs_upto(board, last, meta, cell_y, n - 1);
        let (runs0, open0) = runs_upto(board, last, meta, cell_y, n - 1);
        let c = column_changed(board, last, meta, cell_y, n - 1);
        let m = (n - 1) as u16;
        assert(m as int == n - 1);
        let (runs, open) = runs_upto(board, last, meta, cell_y, n);
        assert forall|dx: int| 0 <= dx < n implies (column_changed(board, last, meta, cell_y, dx) <==> (in_some_run(runs, dx)
            || (open matches Some(s) && s <= dx))) by {
            if dx == n - 1 {
                assert(!in_some_run(runs0, dx)) by {
                    if in_some_run(runs0, dx) {
                        let k = choose|k: int| 0 <= k < runs0.len() && #[trigger] runs0[k].0 <= dx && dx < runs0[k].1;
                        assert(runs0[k].1 <= n - 1);
                    }
                }
            }
            match (open0, c) {
                (Some(st), false) => {
                    assert(runs == runs0.push((st, m)));
                    lemma_in_some_run_push(runs0, (st, m), dx);
                },
                _ => {},
            }
        }
        assert forall|k: int| 0 <= k < runs.len() implies #[trigger] runs[k].1 <= n by {
            if k < runs0.len() {
                assert(runs[k] == runs0[k]);
            }
        }
    }
}

/// The runs that are drawn again hold exactly the columns that changed.
pub proof fn lemma_changed_runs_are_exact(board: Seq<u64>, last: Option<Seq<u64>>, meta: RenderMetadata, cell_y: int, dx: int)
    requires
        0 <= dx < meta.out_w,
    ensures
        column_changed(board, last, meta, cell_y, dx) <==> in_some_run(
            changed_runs_spec(board, last, meta, cell_y),
            dx,
        ),
{
    lemma_runs_upto(board, last, meta, cell_y, meta.out_w as int);
    let (runs, open) = runs_upto(board, last, meta, cell_y, meta.out_w as int);
    assert(column_changed(board, last, meta, cell_y, dx) <==> (in_some_run(runs, dx) || (open matches Some(s) && s
        <= dx)));
    match open {
        Some(s) => {
            assert(changed_runs_spec(board, last, meta, cell_y) == runs.push((s, meta.out_w)));
            lemma_in_some_run_push(runs, (s, meta.out_w), dx);
        },
        None => {
            assert(changed_runs_spec(board, last, meta, cell_y) == runs);
        },
    }
}

/// Whether logical pixel `(dx, dy)` of the picture of `display` is lit.
pub fn sample(display: &Display, meta: &RenderMetadata, dx: u16, dy: u16) -> (r: bool)
    requires
        meta.pixel >= 1,
    ensures
        r == sample_spec(display@, *meta, dx as int, dy as int),
{
    let sx = dx / meta.pixel;
    let sy = dy / meta.pixel;
    display.get(sx as u8, sy as u8)
}

fn column_changed_exec(display: &Display, last: Option<&Display>, meta: &RenderMetadata, cell_y: u16, dx: u16) -> (r: bool)
    requires
        meta.pixel >= 1,
        2 * cell_y + 1 <= u16::MAX,
    ensures
        r == column_changed(display@, match last { Some(d) => Some(d@), None => None }, *meta, cell_y as int, dx as int),
{
    match last {
        None => true,
        Some(prev) => {
            let top_dy = cell_y * 2;
            let bottom_dy = top_dy + 1;
            let top_now = sample(display, meta, dx, top_dy);
            let top_prev = sample(prev, meta, dx, top_dy);
            let bottom_changed = bottom_dy < meta.out_h && {
                let bottom_now = sample(display, meta, dx, bottom_dy);
                let bottom_prev = sample(prev, meta, dx, bottom_dy);
                bottom_now != bottom_prev
            };
            (top_now != top_prev) || bottom_changed
        },
    }
}

/// The maximal runs `[start, end)` of columns of terminal row `cell_y` that
/// differ from `last`, the picture the terminal shows (all of them without one).
pub fn changed_runs(display: &Display, last: Option<&Display>, meta: &RenderMetadata, cell_y: u16) -> (r: Vec<(u16, u16)>)
    requires
        meta.pixel >= 1,
        2 * cell_y + 1 <= u16::MAX,
    ensures
        r@ == changed_runs_spec(display@, match last { Some(d) => Some(d@), None => None }, *meta, cell_y as int),
{
    let ghost prev = match last { Some(d) => Some(d@), None => None };
    let mut runs: Vec<(u16, u16)> = Vec::new();
    let mut run_start: Option<u16> = None;
    let mut dx: u16 = 0;
    while dx < meta.out_w
        invariant
            dx <= meta.out_w,
            meta.pixel >= 1,
            2 * cell_y + 1 <= u16::MAX,
            prev == match last { Some(d) => Some(d@), None => None },
            (runs@, run_start) == runs_upto(display@, prev, *meta, cell_y as int, dx as int),
        decreases meta.out_w - dx,
    {
        let changed = column_changed_exec(display, last, meta, cell_y, dx);
        match (run_start, changed) {
            (None, true) => run_start = Some(dx),
            (Some(start), false) => {
                runs.push((start, dx));
                run_start = None;
            },
            _ => {},
        }
        dx = dx + 1;
    }
    if let Some(start) = run_start {
        runs.push((start, meta.out_w));
    }
    runs
}

/// What the terminal shows: the layout and the picture it last drew.
pub struct RenderData {
    pub metadata: RenderMetadata,
    pub display: Display,
}

/// The terminal's size and its memory of what it shows, so that only
/// changes are drawn.
pub struct TerminalCanvas {
    pub terminal_size: (u16, u16),
    pub last_render: Option<RenderData>,
}

impl TerminalCanvas {
    /// Nothing drawn yet, in a terminal that reports `size` (see
    /// `usable_terminal_size`).
    pub fn new(size: (u16, u16)) -> (r: Self)
        ensures
            r.last_render is None,
            r.terminal_size == (if size.0 == 0 && size.1 == 0 { (64u16, 32u16) } else { size }),
    {
        Self { terminal_size: usable_terminal_size(size), last_render: None }
    }

    /// The terminal now has `width`×`height` cells: the picture must be drawn
    /// again, which the result says.
    pub fn resize(&mut self, width: u16, height: u16) -> (needs_redraw: bool)
        ensures
            needs_redraw,
            final(self).terminal_size == (width, height),
            final(self).last_render == old(self).last_render,
    {
        self.terminal_size = (width, height);
        true
    }

    /// The layout of the screen in the terminal.
    pub fn layout(&self) -> (r: RenderMetadata)
        ensures
            r == layout_spec(self.terminal_size.0, self.terminal_size.1),
            1 <= r.pixel,
            r.out_w == 64 * r.pixel,
            r.out_h == 32 * r.pixel,
    {
        RenderMetadata::for_terminal(self.terminal_size)
    }

    /// Begins a frame laid out as `meta`: when nothing was drawn yet or the
    /// layout changed, the whole terminal must be cleared and redrawn (and the
    /// new layout is remembered); the result says whether.
    pub fn begin_frame(&mut self, meta: RenderMetadata) -> (clear_all: bool)
        ensures
            clear_all == (old(self).last_render matches Some(d) ==> d.metadata != meta),
            match old(self).last_render {
                None => final(self).last_render is None,
                Some(d) => final(self).last_render matches Some(n) && n.metadata == meta && n.display@
                    == d.display@,
            },
    {
        match &mut self.last_render {
            None => true,
            Some(last) => {
                let is_different = last.metadata != meta;
                if is_different {
                    last.metadata = meta;
                }
                is_different
            },
        }
    }

    /// The picture to compare against: the remembered one, unless the frame
    /// redraws everything.
    pub fn comparison(&self, clear_all: bool) -> (r: Option<&Display>)
        ensures
            clear_all ==> r is None,
            !clear_all ==> match self.last_render {
                Some(d) => r matches Some(p) && p@ == d.display@,
                None => r is None,
            },
    {
        if clear_all {
            return None;
        }
        match &self.last_render {
            Some(last) => Some(&last.display),
            None => None,
        }
    }

    /// Ends a frame that drew `display` laid out as `meta`.
    pub fn finish_frame(&mut self, meta: RenderMetadata, display: &Display)
        ensures
            final(self).last_render matches Some(d) && d.display@ == display@ && d.metadata == (match old(
                self,
            ).last_render {
                Some(o) => o.metadata,
                None => meta,
            }),
    {
        let copy = Display(display.0);
        match &mut self.last_render {
            Some(data) => data.display = copy,
            None => self.last_render = Some(RenderData { metadata: meta, display: copy }),
        }
    }
}

} // verus!
