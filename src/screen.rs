use vstd::prelude::*;

verus! {

/// A sequence of `n` copies of `v`.
pub open spec fn filled<T>(n: nat, v: T) -> Seq<T> {
    Seq::new(n, |_i: int| v)
}

/// Whether `(row, col)` lies on a `w` by `h` grid.
pub open spec fn on_grid(w: int, h: int, row: int, col: int) -> bool {
    0 <= row < h && 0 <= col < w
}

/// Whether buffer slot `i` of a `w` by `h` grid is the pixel in `row` at a column
/// in `[lo, lo + n)`.
pub open spec fn in_span(w: int, h: int, row: int, lo: int, n: int, i: int) -> bool {
    &&& on_grid(w, h, row, i - row * w)
    &&& lo <= i - row * w < lo + n
}

/// A row-major buffer after the pixels of `row` from column `lo` on take the
/// values `vals`, those that fall off the grid being dropped.
pub open spec fn span_written<T>(buf: Seq<T>, w: int, h: int, row: int, lo: int, vals: Seq<T>) -> Seq<T> {
    Seq::new(
        buf.len(),
        |i: int|
            if in_span(w, h, row, lo, vals.len() as int, i) {
                vals[i - row * w - lo]
            } else {
                buf[i]
            },
    )
}

/// A color buffer and a depth buffer of `w * h` pixels each, row-major
/// (pixel `(row, col)` at `row * w + col`, row 0 first).
pub struct Screen<C, Z> {
    pub w: usize,
    pub h: usize,
    pub color: Vec<C>,
    pub zbuf: Vec<Z>,
}

impl<C: Copy, Z: Copy> Screen<C, Z> {
    /// Both buffers hold exactly one entry per pixel.
    pub open spec fn wf(&self) -> bool {
        &&& self.color@.len() == self.w * self.h
        &&& self.zbuf@.len() == self.w * self.h
    }

    /// A `w` by `h` screen with every color `blank` and every depth `far`.
    pub fn new(w: usize, h: usize, blank: C, far: Z) -> (s: Self)
        requires
            w * h <= usize::MAX,
        ensures
            s.wf(),
            s.w == w,
            s.h == h,
            s.color@ == filled((w * h) as nat, blank),
            s.zbuf@ == filled((w * h) as nat, far),
    {
        let n: usize = w * h;
        Screen { w, h, color: fill_vec(n, blank), zbuf: fill_vec(n, far) }
    }

    /// Sets every color back to `blank` and every depth to `far`, keeping the size.
    pub fn clear(&mut self, blank: C, far: Z)
        requires
            old(self).w * old(self).h <= usize::MAX,
        ensures
            final(self).wf(),
            final(self).w == old(self).w,
            final(self).h == old(self).h,
            final(self).color@ == filled((old(self).w * old(self).h) as nat, blank),
            final(self).zbuf@ == filled((old(self).w * old(self).h) as nat, far),
    {
        let n: usize = self.w * self.h;
        self.color = fill_vec(n, blank);
        self.zbuf = fill_vec(n, far);
    }

    /// Writes color `c` and depth `z` at `(row, col)`; a position off the screen
    /// leaves both buffers as they were. No depth test is made: the write always wins.
    pub fn put(&mut self, row: i64, col: i64, c: C, z: Z)
        requires
            old(self).wf(),
        ensures
            final(self).wf(),
            final(self).w == old(self).w,
            final(self).h == old(self).h,
            final(self).color@ == (if on_grid(old(self).w as int, old(self).h as int, row as int, col as int) {
                old(self).color@.update(row * old(self).w + col, c)
            } else {
                old(self).color@
            }),
            final(self).zbuf@ == (if on_grid(old(self).w as int, old(self).h as int, row as int, col as int) {
                old(self).zbuf@.update(row * old(self).w + col, z)
            } else {
                old(self).zbuf@
            }),
    {
        self.put_wide(row as i128, col as i128, c, z);
    }

    /// `put` for positions of any `i64` row and any column that a span can reach.
    fn put_wide(&mut self, row: i128, col: i128, c: C, z: Z)
        requires
            old(self).wf(),
        ensures
            final(self).wf(),
            final(self).w == old(self).w,
            final(self).h == old(self).h,
            final(self).color@ == (if on_grid(old(self).w as int, old(self).h as int, row as int, col as int) {
                old(self).color@.update(row * old(self).w + col, c)
            } else {
                old(self).color@
            }),
            final(self).zbuf@ == (if on_grid(old(self).w as int, old(self).h as int, row as int, col as int) {
                old(self).zbuf@.update(row * old(self).w + col, z)
            } else {
                old(self).zbuf@
            }),
    {
        if 0 <= row && row < self.h as i128 && 0 <= col && col < self.w as i128 {
            let len: usize = self.color.len();
            let r: usize = row as usize;
            let k: usize = col as usize;
            proof {
                lemma_index_on_grid(self.w as int, self.h as int, r as int, k as int);
            }
            assert(r * self.w + k < len);
            let i: usize = r * self.w + k;
            self.color.set(i, c);
            self.zbuf.set(i, z);
        }
    }

    /// Writes color `colors[k]` and depth `depths[k]` at `(row, lo + k)` for each `k`,
    /// dropping the pixels that fall off the screen. No depth test is made.
    pub fn fill_span(&mut self, row: i64, lo: i64, colors: &Vec<C>, depths: &Vec<Z>)
        requires
            old(self).wf(),
            colors@.len() == depths@.len(),
        ensures
            final(self).wf(),
            final(self).w == old(self).w,
            final(self).h == old(self).h,
            final(self).color@ == span_written(
                old(self).color@,
                old(self).w as int,
                old(self).h as int,
                row as int,
                lo as int,
                colors@,
            ),
            final(self).zbuf@ == span_written(
                old(self).zbuf@,
                old(self).w as int,
                old(self).h as int,
                row as int,
                lo as int,
                depths@,
            ),
    {
        let n: usize = colors.len();
        let mut k: usize = 0;
        while k < n
            invariant
                self.wf(),
                self.w == old(self).w,
                self.h == old(self).h,
                k <= n,
                n == colors@.len(),
                n == depths@.len(),
                self.color@ == span_written(
                    old(self).color@,
                    self.w as int,
                    self.h as int,
                    row as int,
                    lo as int,
                    colors@.take(k as int),
                ),
                self.zbuf@ == span_written(
                    old(self).zbuf@,
                    self.w as int,
                    self.h as int,
                    row as int,
                    lo as int,
                    depths@.take(k as int),
                ),
            decreases n - k,
        {
            let col: i128 = lo as i128 + k as i128;
            let ghost before_color = self.color@;
            let ghost before_zbuf = self.zbuf@;
            self.put_wide(row as i128, col, colors[k], depths[k]);
            proof {
                let w = self.w as int;
                let h = self.h as int;
                let next_c = colors@.take(k + 1);
                let next_z = depths@.take(k + 1);
                if on_grid(w, h, row as int, col as int) {
                    lemma_index_on_grid(w, h, row as int, col as int);
                }
                assert forall|i: int| 0 <= i < self.color@.len() implies self.color@[i]
                    == span_written(old(self).color@, w, h, row as int, lo as int, next_c)[i] by {
                    if i == row * w + col && on_grid(w, h, row as int, col as int) {
                        assert(next_c[k as int] == colors@[k as int]);
                    } else {
                        assert(self.color@[i] == before_color[i]);
                    }
                }
                assert forall|i: int| 0 <= i < self.zbuf@.len() implies self.zbuf@[i]
                    == span_written(old(self).zbuf@, w, h, row as int, lo as int, next_z)[i] by {
                    if i == row * w + col && on_grid(w, h, row as int, col as int) {
                        assert(next_z[k as int] == depths@[k as int]);
                    } else {
                        assert(self.zbuf@[i] == before_zbuf[i]);
                    }
                }
                assert(self.color@ =~= span_written(old(self).color@, w, h, row as int, lo as int, next_c));
                assert(self.zbuf@ =~= span_written(old(self).zbuf@, w, h, row as int, lo as int, next_z));
            }
            k = k + 1;
        }
        assert(colors@.take(n as int) =~= colors@);
        assert(depths@.take(n as int) =~= depths@);
    }
}

/// Two spans written one after the other: a pixel that the second covers holds
/// the second's value, whatever the first wrote there. Color and depth alike follow
/// draw order; the stored depth never decides.
pub proof fn lemma_later_span_wins<T>(
    buf: Seq<T>,
    w: int,
    h: int,
    row1: int,
    lo1: int,
    vals1: Seq<T>,
    row2: int,
    lo2: int,
    vals2: Seq<T>,
    i: int,
)
    requires
        0 <= i < buf.len(),
        in_span(w, h, row2, lo2, vals2.len() as int, i),
    ensures
        span_written(span_written(buf, w, h, row1, lo1, vals1), w, h, row2, lo2, vals2)[i]
            == vals2[i - row2 * w - lo2],
{
}

/// A span write keeps the buffer's length and changes only slots of pixels on
/// the grid, in the span's row, however far off the screen the span reaches.
pub proof fn lemma_span_stays_on_grid<T>(buf: Seq<T>, w: int, h: int, row: int, lo: int, vals: Seq<T>)
    ensures
        span_written(buf, w, h, row, lo, vals).len() == buf.len(),
        forall|i: int|
            0 <= i < buf.len() && #[trigger] span_written(buf, w, h, row, lo, vals)[i] != buf[i]
                ==> on_grid(w, h, row, i - row * w),
{
}

/// A pixel on the grid has its slot inside the buffer.
proof fn lemma_index_on_grid(w: int, h: int, row: int, col: int)
    requires
        on_grid(w, h, row, col),
    ensures
        0 <= row * w,
        row * w + col < w * h,
{
    assert(0 <= row * w) by (nonlinear_arith)
        requires
            0 <= row,
            0 <= w,
    ;
    assert(row * w + col < w * h) by (nonlinear_arith)
        requires
            0 <= row < h,
            0 <= col < w,
    ;
}

/// A vector of `n` copies of `v`.
fn fill_vec<T: Copy>(n: usize, v: T) -> (r: Vec<T>)
    ensures
        r@ == filled(n as nat, v),
{
    let mut r: Vec<T> = Vec::new();
    let mut i: usize = 0;
    while i < n
        invariant
            i <= n,
            r@ == filled(i as nat, v),
        decreases n - i,
    {
        r.push(v);
        i = i + 1;
        assert(r@ =~= filled(i as nat, v));
    }
    r
}

} // verus!
