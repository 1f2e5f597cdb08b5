//! A character canvas for drawing sample buffers in the terminal.
//!
//! The canvas is a grid of `x_size` columns and `y_size` rows, stored row by
//! row. Coordinates beyond the grid are clamped to its last column or row.
use vstd::prelude::*;

verus! {

pub struct Canvas {
    x_size: usize,
    y_size: usize,
    byte: Vec<char>,
}

/// A coordinate clamped to the last position of a dimension of size `size`.
pub open spec fn clamp(v: int, size: int) -> int {
    if v >= size {
        size - 1
    } else {
        v
    }
}

/// Index of the cell that `(x, y)` addresses on a canvas of width `w` and
/// height `h`.
pub open spec fn cell_index(w: int, h: int, x: int, y: int) -> int {
    clamp(y, h) * w + clamp(x, w)
}

/// The cells after writing `ops` in order; each entry is a column, a row
/// and the character written there.
pub open spec fn apply_ops(cells: Seq<char>, w: int, h: int, ops: Seq<(usize, usize, char)>) -> Seq<char>
    decreases ops.len(),
{
    if ops.len() == 0 {
        cells
    } else {
        let o = ops.last();
        apply_ops(cells, w, h, ops.drop_last()).update(cell_index(w, h, o.0 as int, o.1 as int), o.2)
    }
}

/// Writes of `c` into column `x`, rows `from` up to (not including) `to`.
pub open spec fn segment_ops(x: usize, from: usize, to: usize, c: char) -> Seq<(usize, usize, char)>
    decreases to,
{
    if to <= from {
        Seq::empty()
    } else {
        segment_ops(x, from, (to - 1) as usize, c).push((x, (to - 1) as usize, c))
    }
}

/// Distance of two rows, as the plot computes it.
pub open spec fn row_distance(a: usize, b: usize) -> i64 {
    (if a > b {
        a - b
    } else {
        b - a
    }) as i64
}

/// Writes that draw point `x` of a curve given by the rows `ys`: if the
/// previous point is more than one row away, the gap is filled with a
/// vertical line, the lower half in the column of the lower point and the
/// upper half in the column of the upper point; then the point itself.
pub open spec fn point_ops(ys: Seq<usize>, x: int) -> Seq<(usize, usize, char)> {
    let prev = if x == 0 {
        ys[0]
    } else {
        ys[x - 1]
    };
    let y = ys[x];
    let diff = row_distance(y, prev);
    let fill = if diff > 1 {
        let (x1, from, x2, to) = if prev < y {
            ((x - 1) as usize, prev, x as usize, y)
        } else {
            (x as usize, y, (x - 1) as usize, prev)
        };
        let half = (from + (diff / 2) as usize) as usize;
        segment_ops(x1, from, half, '|') + segment_ops(x2, half, to, '|')
    } else {
        Seq::empty()
    };
    fill.push((x as usize, y, '∘'))
}

/// Writes that draw the first `n` points of the curve `ys`.
pub open spec fn curve_ops(ys: Seq<usize>, n: int) -> Seq<(usize, usize, char)>
    decreases n,
{
    if n <= 0 {
        Seq::empty()
    } else {
        curve_ops(ys, n - 1) + point_ops(ys, n - 1)
    }
}

/// Writes that draw a horizontal axis in row `y` across `w` columns.
pub open spec fn axis_ops(w: int, y: usize) -> Seq<(usize, usize, char)>
    decreases w,
{
    if w <= 0 {
        Seq::empty()
    } else {
        axis_ops(w - 1, y).push(((w - 1) as usize, y, '-'))
    }
}

/// Appending one write to a list of writes applies it last.
proof fn lemma_apply_push(cells: Seq<char>, w: int, h: int, ops: Seq<(usize, usize, char)>, o: (usize, usize, char))
    ensures
        apply_ops(cells, w, h, ops.push(o)) == apply_ops(cells, w, h, ops).update(
            cell_index(w, h, o.0 as int, o.1 as int),
            o.2,
        ),
{
    assert(ops.push(o).drop_last() =~= ops);
}

proof fn lemma_index_in_bounds(w: int, h: int, x: int, y: int)
    requires
        w > 0,
        h > 0,
        x >= 0,
        y >= 0,
    ensures
        0 <= cell_index(w, h, x, y) < w * h,
{
    let cx = clamp(x, w);
    let cy = clamp(y, h);
    assert(0 <= cy * w + cx < w * h) by (nonlinear_arith)
        requires
            0 <= cx < w,
            0 <= cy < h,
    ;
}

impl Canvas {
    /// Number of columns.
    pub closed spec fn width(&self) -> int {
        self.x_size as int
    }

    /// Number of rows.
    pub closed spec fn height(&self) -> int {
        self.y_size as int
    }

    /// The characters of the canvas, row by row.
    pub closed spec fn cells(&self) -> Seq<char> {
        self.byte@
    }

    /// The canvas holds one character per cell.
    #[verifier::type_invariant]
    spec fn wf(self) -> bool {
        self.byte@.len() == self.x_size * self.y_size
    }

    pub fn new(x_size: usize, y_size: usize) -> (c: Canvas)
        requires
            x_size * y_size <= usize::MAX,
        ensures
            c.width() == x_size,
            c.height() == y_size,
            c.cells() == Seq::new((x_size * y_size) as nat, |i: int| ' '),
    {
        let n = x_size * y_size;
        let mut byte: Vec<char> = Vec::new();
        let mut i: usize = 0;
        while i < n
            invariant
                i <= n,
                byte@ == Seq::new(i as nat, |k: int| ' '),
            decreases n - i,
        {
            byte.push(' ');
            i += 1;
        }
        Canvas { x_size, y_size, byte }
    }

    /// Sets every cell to a space.
    pub fn clear(&mut self)
        ensures
            final(self).width() == old(self).width(),
            final(self).height() == old(self).height(),
            final(self).cells() == Seq::new(old(self).cells().len(), |i: int| ' '),
    {
        proof {
            use_type_invariant(&*self);
        }
        let n = self.byte.len();
        let mut i: usize = 0;
        while i < n
            invariant
                n == self.byte@.len(),
                n == self.x_size * self.y_size,
                i <= n,
                self.x_size == old(self).x_size,
                self.y_size == old(self).y_size,
                forall|k: int| 0 <= k < i ==> self.byte@[k] == ' ',
            decreases n - i,
        {
            self.byte[i] = ' ';
            i += 1;
        }
        assert(self.byte@ =~= Seq::new(n as nat, |k: int| ' '));
    }

    /// Writes `val` into the cell at column `x`, row `y` (clamped to the
    /// canvas).
    pub fn set(&mut self, x: usize, y: usize, val: char)
        requires
            old(self).width() > 0,
            old(self).height() > 0,
        ensures
            final(self).width() == old(self).width(),
            final(self).height() == old(self).height(),
            final(self).cells() == old(self).cells().update(
                cell_index(old(self).width(), old(self).height(), x as int, y as int),
                val,
            ),
    {
        proof {
            use_type_invariant(&*self);
        }
        let mut x = x;
        let mut y = y;
        if x >= self.x_size {
            x = self.x_size - 1;
        }
        if y >= self.y_size {
            y = self.y_size - 1;
        }
        let blen = self.byte.len();
        proof {
            lemma_index_in_bounds(self.x_size as int, self.y_size as int, x as int, y as int);
            assert(y * self.x_size + x < blen);
            assert(y * self.x_size <= y * self.x_size + x);
        }
        let idx = y * self.x_size + x;
        self.byte[idx] = val;
    }

    /// Draws a horizontal axis in row `y_pos`.
    pub fn plot_x_axis(&mut self, y_pos: usize)
        requires
            old(self).width() > 0,
            old(self).height() > 0,
        ensures
            final(self).width() == old(self).width(),
            final(self).height() == old(self).height(),
            final(self).cells() == apply_ops(
                old(self).cells(),
                old(self).width(),
                old(self).height(),
                axis_ops(old(self).width(), y_pos),
            ),
    {
        let mut x: usize = 0;
        while x < self.x_size
            invariant
                self.width() == old(self).width(),
                self.height() == old(self).height(),
                self.width() > 0,
                self.height() > 0,
                x <= self.width(),
                self.cells() == apply_ops(old(self).cells(), self.width(), self.height(), axis_ops(x as int, y_pos)),
            decreases self.width() - x,
        {
            proof {
                lemma_apply_push(old(self).cells(), self.width(), self.height(), axis_ops(x as int, y_pos), (x, y_pos, '-'));
            }
            self.set(x, y_pos, '-');
            x += 1;
        }
    }

    /// Distance between two rows, converted to `i64`.
    pub fn diff(a: usize, b: usize) -> (r: i64)
        ensures
            r == row_distance(a, b),
    {
        let result = if a > b {
            a - b
        } else {
            b - a
        };
        result as i64
    }

    /// Orders two points by their row.
    pub fn sort(x_a: usize, y_a: usize, x_b: usize, y_b: usize) -> (r: (usize, usize, usize, usize))
        ensures
            y_a < y_b ==> r == (x_a, y_a, x_b, y_b),
            y_a >= y_b ==> r == (x_b, y_b, x_a, y_a),
    {
        if y_a < y_b {
            (x_a, y_a, x_b, y_b)
        } else {
            (x_b, y_b, x_a, y_a)
        }
    }

    /// Writes `c` into column `x`, rows `from` up to (not including) `to`.
    fn fill(&mut self, x: usize, from: usize, to: usize, c: char)
        requires
            old(self).width() > 0,
            old(self).height() > 0,
        ensures
            final(self).width() == old(self).width(),
            final(self).height() == old(self).height(),
            final(self).cells() == apply_ops(
                old(self).cells(),
                old(self).width(),
                old(self).height(),
                segment_ops(x, from, to, c),
            ),
    {
        let mut i: usize = from;
        proof {
            assert(segment_ops(x, from, from, c) =~= Seq::empty());
        }
        while i < to
            invariant
                self.width() == old(self).width(),
                self.height() == old(self).height(),
                self.width() > 0,
                self.height() > 0,
                from <= i,
                i <= to || from >= to,
                from >= to ==> i == from,
                self.cells() == apply_ops(old(self).cells(), self.width(), self.height(), segment_ops(x, from, i, c)),
            decreases to - i,
        {
            proof {
                lemma_apply_push(old(self).cells(), self.width(), self.height(), segment_ops(x, from, i, c), (x, i, c));
            }
            self.set(x, i, c);
            i += 1;
        }
    }

    /// Draws a curve: point `x` of the curve is drawn in column `x`, row
    /// `ys[x]`, and gaps of more than one row between neighbouring points are
    /// filled with vertical lines. If `x_axis` is given, a horizontal axis is
    /// drawn in that row first.
    pub fn plot_positions(&mut self, ys: &[usize], x_axis: Option<usize>)
        requires
            old(self).width() > 0,
            old(self).height() > 0,
        ensures
            final(self).width() == old(self).width(),
            final(self).height() == old(self).height(),
            final(self).cells() == apply_ops(
                old(self).cells(),
                old(self).width(),
                old(self).height(),
                match x_axis {
                    Some(row) => axis_ops(old(self).width(), row),
                    None => Seq::empty(),
                } + curve_ops(ys@, ys@.len() as int),
            ),
    {
        let ghost axis = match x_axis {
            Some(row) => axis_ops(old(self).width(), row),
            None => Seq::<(usize, usize, char)>::empty(),
        };
        if let Some(row) = x_axis {
            self.plot_x_axis(row);
        }
        proof {
            assert(axis + curve_ops(ys@, 0) =~= axis);
        }
        if ys.len() == 0 {
            return;
        }
        let mut prev = ys[0];
        let mut x_pos: usize = 0;
        while x_pos < ys.len()
            invariant
                self.width() == old(self).width(),
                self.height() == old(self).height(),
                self.width() > 0,
                self.height() > 0,
                ys@.len() > 0,
                x_pos <= ys@.len(),
                prev == (if x_pos == 0 {
                    ys@[0]
                } else {
                    ys@[x_pos - 1]
                }),
                self.cells() == apply_ops(old(self).cells(), self.width(), self.height(), axis + curve_ops(ys@, x_pos as int)),
            decreases ys@.len() - x_pos,
        {
            let ghost base = axis + curve_ops(ys@, x_pos as int);
            let ghost start = self.cells();
            let y_pos = ys[x_pos];
            let diff: i64 = Canvas::diff(y_pos, prev);
            let ghost mut fill_ops = Seq::<(usize, usize, char)>::empty();
            if diff > 1 {
                let (x1, from, x2, to) = Canvas::sort(x_pos - 1, prev, x_pos, y_pos);
                let halfpoint = from + (diff / 2) as usize;
                self.fill(x1, from, halfpoint, '|');
                let ghost mid = self.cells();
                self.fill(x2, halfpoint, to, '|');
                proof {
                    fill_ops = segment_ops(x1, from, halfpoint, '|') + segment_ops(x2, halfpoint, to, '|');
                    lemma_apply_concat(start, self.width(), self.height(), segment_ops(x1, from, halfpoint, '|'), segment_ops(x2, halfpoint, to, '|'));
                    lemma_apply_concat(old(self).cells(), self.width(), self.height(), base, fill_ops);
                }
            } else {
                proof {
                    assert(base + fill_ops =~= base);
                }
            }
            proof {
                lemma_apply_concat(old(self).cells(), self.width(), self.height(), base, fill_ops);
                lemma_apply_push(old(self).cells(), self.width(), self.height(), base + fill_ops, (x_pos, y_pos, '∘'));
                assert(fill_ops.push((x_pos, y_pos, '∘')) =~= point_ops(ys@, x_pos as int));
                assert(base + point_ops(ys@, x_pos as int) =~= (base + fill_ops).push((x_pos, y_pos, '∘')));
                assert(curve_ops(ys@, x_pos + 1) == curve_ops(ys@, x_pos as int) + point_ops(ys@, x_pos as int));
                assert(axis + curve_ops(ys@, x_pos + 1) =~= base + point_ops(ys@, x_pos as int));
            }
            self.set(x_pos, y_pos, '∘');
            prev = y_pos;
            x_pos += 1;
        }
    }

    /// The screen positions and characters that render the canvas with its
    /// lower left corner at column `x_pos`, row `y_pos + 1`: the cell in
    /// column `x`, row `y` goes to screen column `x + x_pos` and screen row
    /// `y_pos + y_size - y`, so that row 0 is at the bottom.
    pub fn render_cells(&self, x_pos: usize, y_pos: usize) -> (r: Vec<(i32, i32, char)>)
        requires
            self.width() + x_pos <= usize::MAX,
            self.height() + y_pos <= usize::MAX,
        ensures
            r@.len() == self.cells().len(),
            forall|y: int, x: int|
                0 <= y < self.height() && 0 <= x < self.width() ==> #[trigger] r@[y * self.width() + x] == (
                    (x + x_pos) as i32,
                    (y_pos + (self.height() - y)) as i32,
                    self.cells()[y * self.width() + x],
                ),
    {
        proof {
            use_type_invariant(self);
        }
        let mut r: Vec<(i32, i32, char)> = Vec::new();
        let mut y: usize = 0;
        while y < self.y_size
            invariant
                self.wf(),
                y <= self.y_size,
                self.width() + x_pos <= usize::MAX,
                self.height() + y_pos <= usize::MAX,
                r@.len() == y * self.width(),
                forall|yy: int, xx: int|
                    0 <= yy < y && 0 <= xx < self.width() ==> #[trigger] r@[yy * self.width() + xx] == (
                        (xx + x_pos) as i32,
                        (y_pos + (self.height() - yy)) as i32,
                        self.cells()[yy * self.width() + xx],
                    ),
            decreases self.y_size - y,
        {
            let mut x: usize = 0;
            while x < self.x_size
                invariant
                    self.wf(),
                    y < self.y_size,
                    x <= self.x_size,
                    self.width() + x_pos <= usize::MAX,
                    self.height() + y_pos <= usize::MAX,
                    r@.len() == y * self.width() + x,
                    forall|yy: int, xx: int|
                        0 <= yy < y && 0 <= xx < self.width() ==> #[trigger] r@[yy * self.width() + xx] == (
                            (xx + x_pos) as i32,
                            (y_pos + (self.height() - yy)) as i32,
                            self.cells()[yy * self.width() + xx],
                        ),
                    forall|xx: int|
                        0 <= xx < x ==> #[trigger] r@[y * self.width() + xx] == (
                            (xx + x_pos) as i32,
                            (y_pos + (self.height() - y)) as i32,
                            self.cells()[y * self.width() + xx],
                        ),
                decreases self.x_size - x,
            {
                let blen = self.byte.len();
                proof {
                    lemma_index_in_bounds(self.width(), self.height(), x as int, y as int);
                    assert(y * self.x_size + x < blen);
                    assert(y * self.x_size <= y * self.x_size + x);
                }
                let col = (x + x_pos) as i32;
                let row = (y_pos + (self.y_size - y)) as i32;
                let ghost prev_r = r@;
                r.push((col, row, self.byte[y * self.x_size + x]));
                proof {
                    assert forall|yy: int, xx: int|
                        0 <= yy < y && 0 <= xx < self.width() implies #[trigger] r@[yy * self.width() + xx]
                        == prev_r[yy * self.width() + xx] by {
                        assert(yy * self.width() + xx < y * self.width()) by (nonlinear_arith)
                            requires
                                0 <= yy < y,
                                0 <= xx < self.width(),
                        ;
                    }
                }
                x += 1;
            }
            proof {
                assert forall|yy: int, xx: int|
                    0 <= yy < y + 1 && 0 <= xx < self.width() implies #[trigger] r@[yy * self.width() + xx] == (
                        (xx + x_pos) as i32,
                        (y_pos + (self.height() - yy)) as i32,
                        self.cells()[yy * self.width() + xx],
                    ) by {
                    if yy == y {
                    }
                }
                assert((y + 1) * self.width() == y * self.width() + self.width()) by (nonlinear_arith);
            }
            y += 1;
        }
        assert(self.y_size * self.width() == self.width() * self.height()) by (nonlinear_arith)
            requires
                self.y_size == self.height(),
        ;
        r
    }
}

/// Applying two lists of writes one after the other is applying their
/// concatenation.
proof fn lemma_apply_concat(cells: Seq<char>, w: int, h: int, a: Seq<(usize, usize, char)>, b: Seq<(usize, usize, char)>)
    ensures
        apply_ops(apply_ops(cells, w, h, a), w, h, b) == apply_ops(cells, w, h, a + b),
    decreases b.len(),
{
    if b.len() == 0 {
        assert(a + b =~= a);
    } else {
        lemma_apply_concat(cells, w, h, a, b.drop_last());
        assert((a + b).drop_last() =~= a + b.drop_last());
    }
}

/// The writes of a vertical line: one per row from `from` up to (not
/// including) `to`, in that order, all into column `x`.
proof fn lemma_segment_ops(x: usize, from: usize, to: usize, c: char)
    requires
        from <= to,
    ensures
        segment_ops(x, from, to, c).len() == to - from,
        forall|k: int| 0 <= k < to - from ==> #[trigger] segment_ops(x, from, to, c)[k] == (x, (from + k) as usize, c),
    decreases to,
{
    if to > from {
        lemma_segment_ops(x, from, (to - 1) as usize, c);
    }
}

/// Neighbouring points of a curve are joined in either direction: when
/// point `x` lies more than one row above or below point `x - 1`, every row
/// strictly between the two gets a '|' in column `x - 1` or `x`. The point
/// itself is drawn last, as '∘' in its column and row. (Rows further apart
/// than the largest `i64` are not joined.)
pub proof fn lemma_gaps_filled(ys: Seq<usize>, x: int, r: usize)
    requires
        0 < x < ys.len(),
        ys[x - 1] < r < ys[x] || ys[x] < r < ys[x - 1],
        ys[x] - ys[x - 1] <= i64::MAX,
        ys[x - 1] - ys[x] <= i64::MAX,
    ensures
        point_ops(ys, x).contains(((x - 1) as usize, r, '|')) || point_ops(ys, x).contains((x as usize, r, '|')),
        point_ops(ys, x).last() == (x as usize, ys[x], '∘'),
{
    let prev = ys[x - 1];
    let y = ys[x];
    let diff = row_distance(y, prev);
    assert(diff > 1);
    let (x1, from, x2, to) = if prev < y {
        ((x - 1) as usize, prev, x as usize, y)
    } else {
        (x as usize, y, (x - 1) as usize, prev)
    };
    assert(diff == to - from);
    let half = (from + (diff / 2) as usize) as usize;
    let a = segment_ops(x1, from, half, '|');
    let b = segment_ops(x2, half, to, '|');
    lemma_segment_ops(x1, from, half, '|');
    lemma_segment_ops(x2, half, to, '|');
    let ops = point_ops(ys, x);
    assert(ops == (a + b).push((x as usize, y, '∘')));
    if r < half {
        let k = r - from;
        assert(a[k] == (x1, r, '|'));
        assert(ops[k] == (x1, r, '|'));
    } else {
        let k = r - half;
        assert(b[k] == (x2, r, '|'));
        assert(ops[a.len() + k] == (x2, r, '|'));
    }
}

} // verus!
