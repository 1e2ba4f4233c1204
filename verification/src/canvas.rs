//! The minimap's pixel buffer: one RGBA pixel per map cell, addressed in
//! cells from the map's top-left corner, with the few ways a picture is
//! painted onto it — a cell, a block, a line, a closed outline, or the whole
//! picture copied back from another.
use vstd::prelude::*;

verus! {

/// A point on the canvas plane, in cells. It may lie outside the canvas: a
/// viewport reaches past the map's edges when zoomed out, and the canvas clips
/// what leaves it.
#[derive(Clone, Copy, Debug, PartialEq, Eq, Structural)]
pub struct Point {
    pub x: i32,
    pub y: i32,
}

/// An RGBA pixel buffer holding one pixel per map cell.
pub struct Canvas {
    /// Cells across.
    width: u32,
    /// Cells down.
    height: u32,
    /// Four bytes per cell, row-major.
    bytes: Vec<u8>,
}

/// Where a cell's four bytes start in a row-major buffer `width` cells across.
pub open spec fn cell_offset(width: int, x: int, y: int) -> int {
    (y * width + x) * 4
}

proof fn lemma_offset_in_buffer(width: int, height: int, x: int, y: int)
    requires
        0 <= x < width,
        0 <= y < height,
    ensures
        0 <= cell_offset(width, x, y),
        cell_offset(width, x, y) + 4 <= width * height * 4,
{
    assert(y * width + x < width * height) by (nonlinear_arith)
        requires
            0 <= x < width,
            0 <= y < height,
    ;
    assert(0 <= y * width) by (nonlinear_arith)
        requires
            0 <= y,
            0 <= x < width,
    ;
}

/// Distinct cells of one canvas own distinct, non-overlapping runs of bytes.
proof fn lemma_offsets_apart(width: int, height: int, x1: int, y1: int, x2: int, y2: int)
    requires
        0 <= x1 < width,
        0 <= y1 < height,
        0 <= x2 < width,
        0 <= y2 < height,
        x1 != x2 || y1 != y2,
    ensures
        cell_offset(width, x1, y1) + 4 <= cell_offset(width, x2, y2) || cell_offset(
            width,
            x2,
            y2,
        ) + 4 <= cell_offset(width, x1, y1),
{
    if y1 == y2 {
        assert(y1 * width == y2 * width);
    } else if y1 < y2 {
        assert(y1 * width + width <= y2 * width) by (nonlinear_arith)
            requires
                y1 < y2,
                0 < width,
        ;
    } else {
        assert(y2 * width + width <= y1 * width) by (nonlinear_arith)
            requires
                y2 < y1,
                0 < width,
        ;
    }
}

impl Canvas {
    /// The buffer holds exactly four bytes for every cell.
    pub open spec fn wf(self) -> bool {
        self.spec_bytes().len() == self.spec_width() * self.spec_height() * 4
    }

    /// Cells across.
    pub closed spec fn spec_width(self) -> int {
        self.width as int
    }

    /// Cells down.
    pub closed spec fn spec_height(self) -> int {
        self.height as int
    }

    /// The painted bytes, four per cell, row-major.
    pub closed spec fn spec_bytes(self) -> Seq<u8> {
        self.bytes@
    }

    /// Whether a cell lies on the canvas.
    pub open spec fn contains(self, x: int, y: int) -> bool {
        0 <= x < self.spec_width() && 0 <= y < self.spec_height()
    }

    /// The color of a cell on the canvas, as its four bytes.
    pub open spec fn color(self, x: int, y: int) -> Seq<u8> {
        self.spec_bytes().subrange(
            cell_offset(self.spec_width(), x, y),
            cell_offset(self.spec_width(), x, y) + 4,
        )
    }

    /// A canvas of `width` × `height` cells, every cell painted `fill`.
    pub fn new(width: u32, height: u32, fill: [u8; 4]) -> (canvas: Canvas)
        requires
            (width as int) * (height as int) * 4 <= usize::MAX,
        ensures
            canvas.wf(),
            canvas.spec_width() == width,
            canvas.spec_height() == height,
            forall|x: int, y: int| canvas.contains(x, y) ==> #[trigger] canvas.color(x, y) == fill@,
    {
        assert((width as int) * (height as int) <= usize::MAX) by (nonlinear_arith)
            requires
                (width as int) * (height as int) * 4 <= usize::MAX,
        ;
        let cells: usize = (width as usize) * (height as usize);
        let mut bytes: Vec<u8> = Vec::new();
        let mut n: usize = 0;
        while n < cells
            invariant
                cells == (width as int) * (height as int),
                cells * 4 <= usize::MAX,
                n <= cells,
                bytes@.len() == n * 4,
                forall|k: int| 0 <= k < bytes@.len() ==> #[trigger] bytes@[k] == fill@[k % 4],
            decreases cells - n,
        {
            bytes.push(fill[0]);
            bytes.push(fill[1]);
            bytes.push(fill[2]);
            bytes.push(fill[3]);
            n = n + 1;
        }
        let canvas = Canvas { width, height, bytes };
        assert forall|x: int, y: int| canvas.contains(x, y) implies #[trigger] canvas.color(
            x,
            y,
        ) == fill@ by {
            lemma_offset_in_buffer(width as int, height as int, x, y);
            let at = cell_offset(width as int, x, y);
            assert(at % 4 == 0) by {
                assert(at == (y * width + x) * 4);
            }
            assert forall|k: int| 0 <= k < 4 implies #[trigger] canvas.color(x, y)[k] == fill@[k] by {
                assert((at + k) % 4 == k) by {
                    assert(at % 4 == 0);
                }
            }
            assert(canvas.color(x, y) =~= fill@);
        }
        canvas
    }

    /// Cells across.
    pub fn width(&self) -> (width: u32)
        ensures
            width == self.spec_width(),
    {
        self.width
    }

    /// Cells down.
    pub fn height(&self) -> (height: u32)
        ensures
            height == self.spec_height(),
    {
        self.height
    }

    /// The painted bytes, four per cell.
    pub fn bytes(&self) -> (bytes: &[u8])
        ensures
            bytes@ == self.spec_bytes(),
            self.wf() ==> bytes@.len() == 4 * self.spec_width() * self.spec_height(),
    {
        proof {
            let (w, h) = (self.spec_width(), self.spec_height());
            assert(w * h * 4 == 4 * w * h) by (nonlinear_arith);
        }
        self.bytes.as_slice()
    }

    /// Where a cell's bytes start, or `None` past the canvas edge.
    fn offset(&self, x: u32, y: u32) -> (at: Option<usize>)
        requires
            self.wf(),
        ensures
            at is Some <==> self.contains(x as int, y as int),
            at matches Some(at) ==> at == cell_offset(self.spec_width(), x as int, y as int)
                && at + 4 <= self.spec_bytes().len(),
    {
        let len = self.bytes.len();
        if x < self.width && y < self.height {
            proof {
                assert(y * self.width + x < self.width * self.height) by (nonlinear_arith)
                    requires
                        x < self.width,
                        y < self.height,
                ;
                lemma_offset_in_buffer(self.width as int, self.height as int, x as int, y as int);
            }
            Some(((y as usize) * (self.width as usize) + x as usize) * 4)
        } else {
            None
        }
    }

    /// The color of one cell, or `None` past the canvas edge.
    pub fn get(&self, x: u32, y: u32) -> (color: Option<[u8; 4]>)
        requires
            self.wf(),
        ensures
            color is Some <==> self.contains(x as int, y as int),
            color matches Some(color) ==> color@ == self.color(x as int, y as int),
    {
        match self.offset(x, y) {
            Some(at) => {
                let color = [
                    self.bytes[at],
                    self.bytes[at + 1],
                    self.bytes[at + 2],
                    self.bytes[at + 3],
                ];
                assert(color@ =~= self.color(x as int, y as int));
                Some(color)
            },
            None => None,
        }
    }

    /// Paints one cell. Coordinates past the canvas edge paint nothing.
    pub fn put(&mut self, x: u32, y: u32, color: [u8; 4])
        requires
            old(self).wf(),
        ensures
            final(self).wf(),
            final(self).spec_width() == old(self).spec_width(),
            final(self).spec_height() == old(self).spec_height(),
            !old(self).contains(x as int, y as int) ==> final(self).spec_bytes() == old(self).spec_bytes(),
            forall|cx: int, cy: int| #[trigger]
                final(self).contains(cx, cy) ==> final(self).color(cx, cy) == if cx == x && cy
                    == y {
                    color@
                } else {
                    old(self).color(cx, cy)
                },
    {
        let ghost before = self.bytes@;
        match self.offset(x, y) {
            Some(at) => {
                self.bytes.set(at, color[0]);
                self.bytes.set(at + 1, color[1]);
                self.bytes.set(at + 2, color[2]);
                self.bytes.set(at + 3, color[3]);
                proof {
                    let w = self.width as int;
                    let h = self.height as int;
                    assert forall|cx: int, cy: int| #[trigger]
                        self.contains(cx, cy) implies self.color(cx, cy) == if cx == x && cy
                            == y {
                            color@
                        } else {
                            before.subrange(cell_offset(w, cx, cy), cell_offset(w, cx, cy) + 4)
                        } by {
                        lemma_offset_in_buffer(w, h, cx, cy);
                        if cx == x && cy == y {
                            assert(self.color(cx, cy) =~= color@);
                        } else {
                            lemma_offsets_apart(w, h, cx, cy, x as int, y as int);
                            assert(self.color(cx, cy) =~= before.subrange(
                                cell_offset(w, cx, cy),
                                cell_offset(w, cx, cy) + 4,
                            ));
                        }
                    }
                }
            },
            None => {},
        }
    }

    /// Paints the `width` × `height` block of cells anchored at `(x, y)`,
    /// clipped at the canvas edge.
    pub fn fill(&mut self, x: u32, y: u32, width: u32, height: u32, color: [u8; 4])
        requires
            old(self).wf(),
            width == 0 || height == 0 || (x + width - 1 <= u32::MAX && y + height - 1 <= u32::MAX),
        ensures
            final(self).wf(),
            final(self).spec_width() == old(self).spec_width(),
            final(self).spec_height() == old(self).spec_height(),
            forall|cx: int, cy: int| #[trigger]
                final(self).contains(cx, cy) ==> final(self).color(cx, cy) == if in_block(
                    x as int,
                    y as int,
                    width as int,
                    height as int,
                    cx,
                    cy,
                ) {
                    color@
                } else {
                    old(self).color(cx, cy)
                },
    {
        let ghost start = *self;
        let mut dy: u32 = 0;
        while dy < height
            invariant
                self.wf(),
                dy <= height,
                width == 0 || height == 0 || (x + width - 1 <= u32::MAX && y + height - 1
                    <= u32::MAX),
                self.spec_width() == start.spec_width(),
                self.spec_height() == start.spec_height(),
                forall|cx: int, cy: int| #[trigger]
                    self.contains(cx, cy) ==> self.color(cx, cy) == if in_block(
                        x as int,
                        y as int,
                        width as int,
                        dy as int,
                        cx,
                        cy,
                    ) {
                        color@
                    } else {
                        start.color(cx, cy)
                    },
            decreases height - dy,
        {
            let mut dx: u32 = 0;
            while dx < width
                invariant
                    self.wf(),
                    dy < height,
                    dx <= width,
                    width == 0 || height == 0 || (x + width - 1 <= u32::MAX && y + height - 1
                        <= u32::MAX),
                    self.spec_width() == start.spec_width(),
                    self.spec_height() == start.spec_height(),
                    forall|cx: int, cy: int| #[trigger]
                        self.contains(cx, cy) ==> self.color(cx, cy) == if in_block(
                            x as int,
                            y as int,
                            width as int,
                            dy as int,
                            cx,
                            cy,
                        ) || (cy == y + dy && x <= cx < x + dx) {
                            color@
                        } else {
                            start.color(cx, cy)
                        },
                decreases width - dx,
            {
                let ghost before = *self;
                self.put(x + dx, y + dy, color);
                proof {
                    assert forall|cx: int, cy: int| #[trigger]
                        self.contains(cx, cy) implies self.color(cx, cy) == if in_block(
                            x as int,
                            y as int,
                            width as int,
                            dy as int,
                            cx,
                            cy,
                        ) || (cy == y + dy && x <= cx < x + dx + 1) {
                            color@
                        } else {
                            start.color(cx, cy)
                        } by {
                        assert(before.contains(cx, cy));
                    }
                }
                dx = dx + 1;
            }
            proof {
                assert forall|cx: int, cy: int| #[trigger]
                    self.contains(cx, cy) implies self.color(cx, cy) == if in_block(
                        x as int,
                        y as int,
                        width as int,
                        dy + 1,
                        cx,
                        cy,
                    ) {
                        color@
                    } else {
                        start.color(cx, cy)
                    } by {
                    assert(in_block(x as int, y as int, width as int, dy + 1, cx, cy) == (
                    in_block(x as int, y as int, width as int, dy as int, cx, cy) || (cy == y + dy
                        && x <= cx < x + dx)));
                }
            }
            dy = dy + 1;
        }
    }

    /// Paints the run of cells Bresenham's walk visits from `from` to `to`, both
    /// ends included. Points outside the canvas are skipped rather than
    /// clamped, so a line leaving the map keeps the slope it would have had.
    pub fn line(&mut self, from: Point, to: Point, color: [u8; 4])
        requires
            old(self).wf(),
        ensures
            final(self).wf(),
            final(self).spec_width() == old(self).spec_width(),
            final(self).spec_height() == old(self).spec_height(),
            forall|cx: int, cy: int| #[trigger]
                final(self).contains(cx, cy) ==> final(self).color(cx, cy) == if line_points(
                    from,
                    to,
                ).contains((cx, cy)) {
                    color@
                } else {
                    old(self).color(cx, cy)
                },
    {
        let ghost start = *self;
        let dx: i64 = if (from.x as i64) < (to.x as i64) {
            to.x as i64 - from.x as i64
        } else {
            from.x as i64 - to.x as i64
        };
        let dy: i64 = if (from.y as i64) < (to.y as i64) {
            to.y as i64 - from.y as i64
        } else {
            from.y as i64 - to.y as i64
        };
        let sx: i64 = if from.x < to.x { 1 } else { -1 };
        let sy: i64 = if from.y < to.y { 1 } else { -1 };
        let mut i: i64 = 0;
        let mut j: i64 = 0;
        let mut at_x: i64 = from.x as i64;
        let mut at_y: i64 = from.y as i64;
        let mut error: i128 = dx as i128 - dy as i128;
        assert(walk_error(dx as int, dy as int, 0, 0) == dx - dy) by (nonlinear_arith);
        let ghost full = line_points(from, to);
        let ghost mut visited: Seq<(int, int)> = Seq::empty();
        assert(full == visited + walk_points(from.x as int, from.y as int, sx as int, sy as int, dx as int, dy as int, 0, 0));
        while !(i == dx && j == dy)
            invariant
                self.wf(),
                self.spec_width() == start.spec_width(),
                self.spec_height() == start.spec_height(),
                0 <= dx <= u32::MAX,
                0 <= dy <= u32::MAX,
                sx == step_toward(from.x as int, to.x as int),
                sy == step_toward(from.y as int, to.y as int),
                dx == abs_diff(from.x as int, to.x as int),
                dy == abs_diff(from.y as int, to.y as int),
                0 <= i <= dx,
                0 <= j <= dy,
                at_x == from.x + sx * i,
                at_y == from.y + sy * j,
                error == walk_error(dx as int, dy as int, i as int, j as int),
                full == line_points(from, to),
                full == visited + walk_points(
                    from.x as int,
                    from.y as int,
                    sx as int,
                    sy as int,
                    dx as int,
                    dy as int,
                    i as int,
                    j as int,
                ),
                forall|cx: int, cy: int| #[trigger]
                    self.contains(cx, cy) ==> self.color(cx, cy) == if visited.contains(
                        (cx, cy),
                    ) {
                        color@
                    } else {
                        start.color(cx, cy)
                    },
            decreases (dx - i) + (dy - j),
        {
            proof {
                lemma_walk_step(dx as int, dy as int, i as int, j as int);
                lemma_along_fits(from.x as int, to.x as int, sx as int, dx as int, i as int);
                lemma_along_fits(from.y as int, to.y as int, sy as int, dy as int, j as int);
                lemma_error_fits(dx as int, dy as int, i as int, j as int);
            }
            let ghost before = *self;
            self.paint_point(at_x, at_y, color, Ghost(visited));
            proof {
                lemma_push_contains(visited, (at_x as int, at_y as int));
                assert forall|cx: int, cy: int| #[trigger]
                    self.contains(cx, cy) implies self.color(cx, cy) == if visited.push((at_x as int, at_y as int)).contains(
                        (cx, cy),
                    ) {
                        color@
                    } else {
                        start.color(cx, cy)
                    } by {
                    assert(before.contains(cx, cy));
                    assert(visited.push((at_x as int, at_y as int)).contains((cx, cy)) <==> visited.contains((cx, cy)) || (at_x as int, at_y as int) == (cx, cy));
                }
                visited = visited.push((at_x as int, at_y as int));
                lemma_walk_unfold(from.x as int, from.y as int, sx as int, sy as int, dx as int, dy as int, i as int, j as int);
            }
            let doubled: i128 = error * 2;
            let ghost (oi, oj) = (i, j);
            if doubled > -(dy as i128) {
                error = error - dy as i128;
                at_x = at_x + sx;
                i = i + 1;
            }
            if doubled < dx as i128 {
                error = error + dx as i128;
                at_y = at_y + sy;
                j = j + 1;
            }
            proof {
                assert(error == walk_error(dx as int, dy as int, i as int, j as int)) by (nonlinear_arith)
                    requires
                        doubled == 2 * walk_error(dx as int, dy as int, oi as int, oj as int),
                        i == (if doubled > -dy { oi + 1 } else { oi as int }),
                        j == (if doubled < dx { oj + 1 } else { oj as int }),
                        error == walk_error(dx as int, dy as int, oi as int, oj as int) - (if doubled > -dy { dy as int } else { 0 }) + (if doubled < dx { dx as int } else { 0 }),
                ;
                assert(at_x == from.x + sx * i) by (nonlinear_arith)
                    requires
                        at_x == from.x + sx * oi + (if doubled > -dy { sx as int } else { 0 }),
                        i == (if doubled > -dy { oi + 1 } else { oi as int }),
                ;
                assert(at_y == from.y + sy * j) by (nonlinear_arith)
                    requires
                        at_y == from.y + sy * oj + (if doubled < dx { sy as int } else { 0 }),
                        j == (if doubled < dx { oj + 1 } else { oj as int }),
                ;
            }
        }
        proof {
            lemma_along_fits(from.x as int, to.x as int, sx as int, dx as int, i as int);
            lemma_along_fits(from.y as int, to.y as int, sy as int, dy as int, j as int);
        }
        let ghost before = *self;
        self.paint_point(at_x, at_y, color, Ghost(visited));
        proof {
            lemma_push_contains(visited, (at_x as int, at_y as int));
            assert forall|cx: int, cy: int| #[trigger]
                self.contains(cx, cy) implies self.color(cx, cy) == if visited.push((at_x as int, at_y as int)).contains(
                    (cx, cy),
                ) {
                    color@
                } else {
                    start.color(cx, cy)
                } by {
                assert(before.contains(cx, cy));
                assert(visited.push((at_x as int, at_y as int)).contains((cx, cy)) <==> visited.contains((cx, cy)) || (at_x as int, at_y as int) == (cx, cy));
            }
            visited = visited.push((at_x as int, at_y as int));
            assert(full =~= visited);
        }
    }

    /// Paints the closed outline through `corners` in order: a line from the
    /// last corner to the first, then from each corner to the next. The corners
    /// are kept as four separate points rather than reduced to a rectangle: a
    /// turned quad's bounding box covers about twice the ground it does.
    pub fn outline(&mut self, corners: [Point; 4], color: [u8; 4])
        requires
            old(self).wf(),
        ensures
            final(self).wf(),
            final(self).spec_width() == old(self).spec_width(),
            final(self).spec_height() == old(self).spec_height(),
            forall|cx: int, cy: int| #[trigger]
                final(self).contains(cx, cy) ==> final(self).color(cx, cy) == if outline_covers(
                    corners@,
                    cx,
                    cy,
                ) {
                    color@
                } else {
                    old(self).color(cx, cy)
                },
    {
        let ghost start = *self;
        let mut previous = corners[3];
        let mut k: usize = 0;
        while k < 4
            invariant
                self.wf(),
                k <= 4,
                self.spec_width() == start.spec_width(),
                self.spec_height() == start.spec_height(),
                previous == corners@[if k == 0 { 3 } else { k - 1 }],
                forall|cx: int, cy: int| #[trigger]
                    self.contains(cx, cy) ==> self.color(cx, cy) == if outline_prefix_covers(
                        corners@,
                        k as int,
                        cx,
                        cy,
                    ) {
                        color@
                    } else {
                        start.color(cx, cy)
                    },
            decreases 4 - k,
        {
            let corner = corners[k];
            assert(side_points(corners@, k as int) == line_points(previous, corner));
            let ghost before = *self;
            self.line(previous, corner, color);
            proof {
                assert forall|cx: int, cy: int| #[trigger]
                    self.contains(cx, cy) implies self.color(cx, cy) == if outline_prefix_covers(
                        corners@,
                        k + 1,
                        cx,
                        cy,
                    ) {
                        color@
                    } else {
                        start.color(cx, cy)
                    } by {
                    assert(before.contains(cx, cy));
                    let side = side_points(corners@, k as int);
                    if outline_prefix_covers(corners@, k + 1, cx, cy) {
                        let n = choose|n: int|
                            0 <= n < k + 1 && #[trigger] side_points(corners@, n).contains((cx, cy));
                        if n < k {
                            assert(outline_prefix_covers(corners@, k as int, cx, cy));
                        }
                    } else {
                        assert(!side.contains((cx, cy)));
                        assert(!outline_prefix_covers(corners@, k as int, cx, cy));
                    }
                }
            }
            previous = corner;
            k = k + 1;
        }
    }

    /// Repaints every cell from `other`, which must hold as many cells as this
    /// canvas does.
    pub fn restore(&mut self, other: &Canvas)
        requires
            old(self).wf(),
            other.wf(),
            old(self).spec_width() * old(self).spec_height() == other.spec_width()
                * other.spec_height(),
        ensures
            final(self).wf(),
            final(self).spec_width() == old(self).spec_width(),
            final(self).spec_height() == old(self).spec_height(),
            final(self).spec_bytes() == other.spec_bytes(),
    {
        let len = self.bytes.len();
        let mut n: usize = 0;
        while n < len
            invariant
                n <= len,
                len == self.bytes@.len(),
                len == other.bytes@.len(),
                self.width == old(self).width,
                self.height == old(self).height,
                self.wf(),
                forall|k: int| 0 <= k < n ==> #[trigger] self.bytes@[k] == other.bytes@[k],
            decreases len - n,
        {
            self.bytes.set(n, other.bytes[n]);
            n = n + 1;
        }
        assert(self.bytes@ =~= other.bytes@);
    }

    /// Paints one point of a walk when it lies in the non-negative quadrant, and
    /// keeps the painted set in step with the points visited.
    fn paint_point(&mut self, at_x: i64, at_y: i64, color: [u8; 4], visited: Ghost<Seq<(int, int)>>)
        requires
            old(self).wf(),
            i32::MIN <= at_x <= i32::MAX,
            i32::MIN <= at_y <= i32::MAX,
        ensures
            final(self).wf(),
            final(self).spec_width() == old(self).spec_width(),
            final(self).spec_height() == old(self).spec_height(),
            forall|cx: int, cy: int| #[trigger]
                final(self).contains(cx, cy) ==> final(self).color(cx, cy) == if cx == at_x && cy
                    == at_y {
                    color@
                } else {
                    old(self).color(cx, cy)
                },
    {
        if at_x >= 0 && at_y >= 0 {
            self.put(at_x as u32, at_y as u32, color);
        }
    }
}

/// Whether a cell lies in the block of `width` × `height` cells anchored at
/// `(x, y)`.
pub open spec fn in_block(x: int, y: int, width: int, height: int, cx: int, cy: int) -> bool {
    x <= cx < x + width && y <= cy < y + height
}

/// The direction a walk from `a` toward `b` steps along one axis.
pub open spec fn step_toward(a: int, b: int) -> int {
    if a < b {
        1
    } else {
        -1
    }
}

/// How far apart two coordinates are.
pub open spec fn abs_diff(a: int, b: int) -> int {
    if a < b {
        b - a
    } else {
        a - b
    }
}

/// The error term Bresenham's walk carries after `i` steps along the first
/// axis and `j` along the second, for a run of `dx` by `dy`.
pub open spec fn walk_error(dx: int, dy: int, i: int, j: int) -> int {
    dx * (1 + j) - dy * (1 + i)
}

/// The points Bresenham's walk visits from `i` steps along and `j` steps
/// down to its end: at each point, whichever axis is further behind takes the
/// next step, and a diagonal run steps both at once.
pub open spec fn walk_points(
    fx: int,
    fy: int,
    sx: int,
    sy: int,
    dx: int,
    dy: int,
    i: int,
    j: int,
) -> Seq<(int, int)>
    decreases (dx - i) + (dy - j),
    when 0 <= i <= dx && 0 <= j <= dy
{
    if i == dx && j == dy {
        seq![(fx + sx * i, fy + sy * j)]
    } else {
        let doubled = 2 * walk_error(dx, dy, i, j);
        proof {
            lemma_walk_step(dx, dy, i, j);
        }
        seq![(fx + sx * i, fy + sy * j)] + walk_points(
            fx,
            fy,
            sx,
            sy,
            dx,
            dy,
            if doubled > -dy {
                i + 1
            } else {
                i
            },
            if doubled < dx {
                j + 1
            } else {
                j
            },
        )
    }
}

/// The cells the line from `from` to `to` paints, in the order it visits them.
pub open spec fn line_points(from: Point, to: Point) -> Seq<(int, int)> {
    walk_points(
        from.x as int,
        from.y as int,
        step_toward(from.x as int, to.x as int),
        step_toward(from.y as int, to.y as int),
        abs_diff(from.x as int, to.x as int),
        abs_diff(from.y as int, to.y as int),
        0,
        0,
    )
}

/// One step of the walk, short of its end, moves at least one axis, and
/// neither axis past its end.
pub proof fn lemma_walk_step(dx: int, dy: int, i: int, j: int)
    requires
        0 <= i <= dx,
        0 <= j <= dy,
        !(i == dx && j == dy),
    ensures
        ({
            let doubled = 2 * walk_error(dx, dy, i, j);
            &&& doubled > -dy || doubled < dx
            &&& doubled > -dy ==> i < dx
            &&& doubled < dx ==> j < dy
        }),
{
    let doubled = 2 * walk_error(dx, dy, i, j);
    if i == dx {
        assert(j < dy);
        assert(dx * (1 + j) <= dx * dy) by (nonlinear_arith)
            requires
                0 <= dx,
                1 + j <= dy,
        ;
        assert(doubled <= -2 * dy) by (nonlinear_arith)
            requires
                doubled == 2 * (dx * (1 + j) - dy * (1 + i)),
                i == dx,
                dx * (1 + j) <= dx * dy,
        ;
    }
    if j == dy {
        assert(i < dx);
        assert(dy * (1 + i) <= dy * dx) by (nonlinear_arith)
            requires
                0 <= dy,
                1 + i <= dx,
        ;
        assert(doubled >= 2 * dx) by (nonlinear_arith)
            requires
                doubled == 2 * (dx * (1 + j) - dy * (1 + i)),
                j == dy,
                dy * (1 + i) <= dy * dx,
        ;
    }
}

/// Whether the first `k` sides of the closed outline through `corners` cover
/// a cell; side `n` runs from the corner before corner `n` to corner `n`.
pub open spec fn outline_prefix_covers(corners: Seq<Point>, k: int, x: int, y: int) -> bool {
    exists|n: int| 0 <= n < k && #[trigger] side_points(corners, n).contains((x, y))
}

/// The cells side `n` of the closed outline through `corners` paints: from
/// the corner before corner `n` to corner `n`.
pub open spec fn side_points(corners: Seq<Point>, n: int) -> Seq<(int, int)> {
    line_points(
        corners[if n == 0 {
            3
        } else {
            n - 1
        }],
        corners[n],
    )
}

/// Whether the closed outline through four corners covers a cell.
pub open spec fn outline_covers(corners: Seq<Point>, x: int, y: int) -> bool {
    outline_prefix_covers(corners, 4, x, y)
}

/// A line starts where it is drawn from and ends where it is drawn to.
pub proof fn law_line_ends(from: Point, to: Point)
    ensures
        line_points(from, to).len() >= 1,
        line_points(from, to)[0] == (from.x as int, from.y as int),
        line_points(from, to).last() == (to.x as int, to.y as int),
{
    let sx = step_toward(from.x as int, to.x as int);
    let sy = step_toward(from.y as int, to.y as int);
    let dx = abs_diff(from.x as int, to.x as int);
    let dy = abs_diff(from.y as int, to.y as int);
    lemma_walk_shape(from.x as int, from.y as int, sx, sy, dx, dy, 0, 0);
    lemma_along_fits(from.x as int, to.x as int, sx, dx, dx);
    lemma_along_fits(from.y as int, to.y as int, sy, dy, dy);
}

/// A line runs unbroken: each cell it paints touches the next, sideways,
/// up or down, or diagonally, and no cell is painted twice in a row.
pub proof fn law_line_connected(from: Point, to: Point, k: int)
    requires
        0 <= k < line_points(from, to).len() - 1,
    ensures
        ({
            let a = line_points(from, to)[k];
            let b = line_points(from, to)[k + 1];
            &&& -1 <= b.0 - a.0 <= 1
            &&& -1 <= b.1 - a.1 <= 1
            &&& a != b
        }),
{
    let sx = step_toward(from.x as int, to.x as int);
    let sy = step_toward(from.y as int, to.y as int);
    let dx = abs_diff(from.x as int, to.x as int);
    let dy = abs_diff(from.y as int, to.y as int);
    lemma_walk_shape(from.x as int, from.y as int, sx, sy, dx, dy, 0, 0);
}

/// The walk from `(i, j)` starts at its own point, ends at the far end, and
/// steps between neighbouring cells.
proof fn lemma_walk_shape(fx: int, fy: int, sx: int, sy: int, dx: int, dy: int, i: int, j: int)
    requires
        0 <= i <= dx,
        0 <= j <= dy,
        sx == 1 || sx == -1,
        sy == 1 || sy == -1,
    ensures
        ({
            let w = walk_points(fx, fy, sx, sy, dx, dy, i, j);
            &&& w.len() >= 1
            &&& w[0] == (fx + sx * i, fy + sy * j)
            &&& w.last() == (fx + sx * dx, fy + sy * dy)
            &&& forall|k: int|
                0 <= k < w.len() - 1 ==> {
                    &&& -1 <= #[trigger] w[k + 1].0 - w[k].0 <= 1
                    &&& -1 <= w[k + 1].1 - w[k].1 <= 1
                    &&& w[k] != w[k + 1]
                }
        }),
    decreases (dx - i) + (dy - j),
{
    let w = walk_points(fx, fy, sx, sy, dx, dy, i, j);
    if i == dx && j == dy {
    } else {
        lemma_walk_step(dx, dy, i, j);
        lemma_walk_unfold(fx, fy, sx, sy, dx, dy, i, j);
        let doubled = 2 * walk_error(dx, dy, i, j);
        let ni = if doubled > -dy { i + 1 } else { i };
        let nj = if doubled < dx { j + 1 } else { j };
        lemma_walk_shape(fx, fy, sx, sy, dx, dy, ni, nj);
        let rest = walk_points(fx, fy, sx, sy, dx, dy, ni, nj);
        assert(w == seq![(fx + sx * i, fy + sy * j)] + rest);
        assert(w.len() == rest.len() + 1);
        assert(w[0] == (fx + sx * i, fy + sy * j));
        assert(w[1] == rest[0]);
        assert(w.last() == rest.last());
        assert forall|k: int| 0 < k < w.len() implies #[trigger] w[k] == rest[k - 1] by {}
        assert(fx + sx * ni - (fx + sx * i) == sx * (ni - i)) by (nonlinear_arith);
        assert(fy + sy * nj - (fy + sy * j) == sy * (nj - j)) by (nonlinear_arith);
        assert forall|k: int|
            0 <= k < w.len() - 1 implies {
                &&& -1 <= #[trigger] w[k + 1].0 - w[k].0 <= 1
                &&& -1 <= w[k + 1].1 - w[k].1 <= 1
                &&& w[k] != w[k + 1]
            } by {
            if k > 0 {
                let m = k - 1;
                assert(0 <= m < rest.len() - 1);
                assert(-1 <= rest[m + 1].0 - rest[m].0 <= 1);
                assert(m + 1 == k);
                assert(w[k] == rest[m]);
                assert(w[k + 1] == rest[m + 1]);
            } else {
                assert(w[0] == (fx + sx * i, fy + sy * j));
                assert(w[1] == (fx + sx * ni, fy + sy * nj));
                assert(ni != i || nj != j);
                if ni != i {
                    assert(sx * (ni - i) != 0) by (nonlinear_arith)
                        requires
                            ni - i == 1,
                            sx == 1 || sx == -1,
                    ;
                } else {
                    assert(sy * (nj - j) != 0) by (nonlinear_arith)
                        requires
                            nj - j == 1,
                            sy == 1 || sy == -1,
                    ;
                }
            }
        }
    }
}

/// Pushing a point onto a sequence adds exactly that point to what it contains.
pub proof fn lemma_push_contains<A>(s: Seq<A>, a: A)
    ensures
        forall|b: A| #[trigger] s.push(a).contains(b) <==> s.contains(b) || a == b,
{
    assert forall|b: A| #[trigger] s.push(a).contains(b) <==> s.contains(b) || a == b by {
        if s.contains(b) {
            let k = choose|k: int| 0 <= k < s.len() && s[k] == b;
            assert(s.push(a)[k] == b);
        }
        if a == b {
            assert(s.push(a)[s.len() as int] == b);
        }
        if s.push(a).contains(b) {
            let k = choose|k: int| 0 <= k < s.len() + 1 && s.push(a)[k] == b;
            if k < s.len() {
                assert(s[k] == b);
            }
        }
    }
}

/// Short of its end, the walk is its current point followed by the walk from
/// the next one.
proof fn lemma_walk_unfold(fx: int, fy: int, sx: int, sy: int, dx: int, dy: int, i: int, j: int)
    requires
        0 <= i <= dx,
        0 <= j <= dy,
        !(i == dx && j == dy),
    ensures
        ({
            let doubled = 2 * walk_error(dx, dy, i, j);
            let ni = if doubled > -dy { i + 1 } else { i };
            let nj = if doubled < dx { j + 1 } else { j };
            walk_points(fx, fy, sx, sy, dx, dy, i, j) == seq![(fx + sx * i, fy + sy * j)]
                + walk_points(fx, fy, sx, sy, dx, dy, ni, nj)
        }),
{
    lemma_walk_step(dx, dy, i, j);
    reveal_with_fuel(walk_points, 2);
}

/// A walk that stays between its two ends stays within the coordinate range.
proof fn lemma_along_fits(a: int, b: int, s: int, d: int, k: int)
    requires
        i32::MIN <= a <= i32::MAX,
        i32::MIN <= b <= i32::MAX,
        s == step_toward(a, b),
        d == abs_diff(a, b),
        0 <= k <= d,
    ensures
        i32::MIN <= a + s * k <= i32::MAX,
        k == d ==> a + s * k == b,
{
}

/// The error term stays well inside the range it is computed in.
proof fn lemma_error_fits(dx: int, dy: int, i: int, j: int)
    requires
        0 <= dx <= u32::MAX,
        0 <= dy <= u32::MAX,
        0 <= i <= dx,
        0 <= j <= dy,
    ensures
        -0x1_0000_0000_0000_0000_0000 < walk_error(dx, dy, i, j) < 0x1_0000_0000_0000_0000_0000,
{
    assert(0 <= dx * (1 + j) <= 0x1_0000_0000 * 0x1_0000_0000) by (nonlinear_arith)
        requires
            0 <= dx <= u32::MAX,
            0 <= j <= dy,
            dy <= u32::MAX,
    ;
    assert(0 <= dy * (1 + i) <= 0x1_0000_0000 * 0x1_0000_0000) by (nonlinear_arith)
        requires
            0 <= dy <= u32::MAX,
            0 <= i <= dx,
            dx <= u32::MAX,
    ;
}

} // verus!
