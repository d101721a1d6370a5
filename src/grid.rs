//! The grid: per-cell traversal cost and obstacles, and the moves out of a cell.
use vstd::prelude::*;

use crate::error::CommandError;
use crate::position::Position;

verus! {

/// Width of the grid a session starts with.
pub const MAP_WIDTH: i32 = 64;

/// Height of the grid a session starts with.
pub const MAP_HEIGHT: i32 = 64;

/// One move out of a cell: the neighbor entered and the cost of entering it.
#[derive(Clone, Copy, Debug, PartialEq, Eq, Structural)]
pub struct Successor {
    pub position: Position,
    pub cost: i32,
}

/// A `width` x `height` grid stored row-major; `costs[i] == None` is an unset
/// cost, which counts as `1` when moving.
#[derive(Debug)]
pub struct Grid {
    pub width: i32,
    pub height: i32,
    pub costs: Vec<Option<i32>>,
    pub blocked: Vec<bool>,
    pub allow_diagonals: bool,
}

/// The abstract value of a [`Grid`].
pub struct GridView {
    pub width: int,
    pub height: int,
    pub costs: Seq<Option<i32>>,
    pub blocked: Seq<bool>,
    pub allow_diagonals: bool,
}

impl View for Grid {
    type V = GridView;

    open spec fn view(&self) -> GridView {
        GridView {
            width: self.width as int,
            height: self.height as int,
            costs: self.costs@,
            blocked: self.blocked@,
            allow_diagonals: self.allow_diagonals,
        }
    }
}

/// A cost cell is unset or positive.
pub open spec fn valid_cost(c: Option<i32>) -> bool {
    match c {
        Some(v) => v >= 1,
        None => true,
    }
}

/// A `width` x `height` grid with every cell open and of cost `default_cost`.
pub open spec fn fresh_grid(width: int, height: int, allow_diagonals: bool, default_cost: Option<i32>) -> GridView {
    GridView {
        width,
        height,
        costs: Seq::new((width * height) as nat, |_i: int| default_cost),
        blocked: Seq::new((width * height) as nat, |_i: int| false),
        allow_diagonals,
    }
}

/// Cost `c` moved by `delta`, kept within `1..=i32::MAX`; an unset cost stays unset.
pub open spec fn adjusted_cost(c: Option<i32>, delta: int) -> Option<i32> {
    match c {
        Some(v) => {
            let n = v + delta;
            Some(
                if n < 1 {
                    1i32
                } else if n > i32::MAX {
                    i32::MAX
                } else {
                    n as i32
                },
            )
        },
        None => None,
    }
}

/// The relative move `(dx, dy)` scanned at step `k` of the row-major 3x3 scan
/// (`dy` outer, `dx` inner, both from -1 to 1).
pub open spec fn scan_dx(k: int) -> int {
    k % 3 - 1
}

pub open spec fn scan_dy(k: int) -> int {
    k / 3 - 1
}

impl GridView {
    pub open spec fn cell_count(self) -> int {
        self.width * self.height
    }

    /// Dimensions at least 1, one cost and one flag per cell, costs positive or unset.
    pub open spec fn wf(self) -> bool {
        &&& 1 <= self.width <= i32::MAX
        &&& 1 <= self.height <= i32::MAX
        &&& self.costs.len() == self.cell_count()
        &&& self.blocked.len() == self.cell_count()
        &&& forall|i: int| 0 <= i < self.costs.len() ==> valid_cost(#[trigger] self.costs[i])
    }

    pub open spec fn in_bounds_xy(self, x: int, y: int) -> bool {
        0 <= x < self.width && 0 <= y < self.height
    }

    pub open spec fn in_bounds(self, p: Position) -> bool {
        self.in_bounds_xy(p.0 as int, p.1 as int)
    }

    /// Row-major index of cell `(x, y)`.
    pub open spec fn index_xy(self, x: int, y: int) -> int {
        y * self.width + x
    }

    pub open spec fn index(self, p: Position) -> int {
        self.index_xy(p.0 as int, p.1 as int)
    }

    pub open spec fn is_blocked(self, p: Position) -> bool {
        self.blocked[self.index(p)]
    }

    /// In the grid and not blocked: a cell that can be entered.
    pub open spec fn is_open(self, p: Position) -> bool {
        self.in_bounds(p) && !self.is_blocked(p)
    }

    /// Cost of entering `p`: its cost, or 1 when unset.
    pub open spec fn entry_cost(self, p: Position) -> int {
        match self.costs[self.index(p)] {
            Some(c) => c as int,
            None => 1,
        }
    }

    /// `(dx, dy)` is one of the 8 (or, without diagonals, 4) moves.
    pub open spec fn move_allowed(self, dx: int, dy: int) -> bool {
        &&& -1 <= dx <= 1
        &&& -1 <= dy <= 1
        &&& !(dx == 0 && dy == 0)
        &&& (self.allow_diagonals || dx == 0 || dy == 0)
    }

    /// One move leads from `a` into the open cell `b`.
    pub open spec fn adjacent(self, a: Position, b: Position) -> bool {
        self.move_allowed(b.0 - a.0, b.1 - a.1) && self.is_open(b)
    }

    /// What step `k` of the scan around `a` yields: nothing, or one successor.
    pub open spec fn scan_step(self, a: Position, k: int) -> Seq<Successor> {
        let x = a.0 + scan_dx(k);
        let y = a.1 + scan_dy(k);
        let p = Position(x as i32, y as i32);
        if self.move_allowed(scan_dx(k), scan_dy(k)) && self.in_bounds_xy(x, y) && !self.is_blocked(p) {
            seq![Successor { position: p, cost: self.entry_cost(p) as i32 }]
        } else {
            Seq::empty()
        }
    }

    /// The successors found by the first `k` steps of the scan around `a`.
    pub open spec fn scan(self, a: Position, k: int) -> Seq<Successor>
        decreases k,
    {
        if k <= 0 {
            Seq::empty()
        } else {
            self.scan(a, k - 1) + self.scan_step(a, k - 1)
        }
    }

    /// The successors of `a`, in scan order.
    pub open spec fn successors(self, a: Position) -> Seq<Successor> {
        self.scan(a, 9)
    }

    /// The number of allowed moves among the first `k` steps of the scan.
    pub open spec fn allowed_moves(self, k: int) -> int
        decreases k,
    {
        if k <= 0 {
            0
        } else {
            self.allowed_moves(k - 1) + if self.move_allowed(scan_dx(k - 1), scan_dy(k - 1)) {
                1int
            } else {
                0int
            }
        }
    }

    /// The same dimensions and diagonal rule, every cell open with cost `default_cost`.
    pub open spec fn cleared(self, default_cost: Option<i32>) -> GridView {
        fresh_grid(self.width, self.height, self.allow_diagonals, default_cost)
    }

    /// Most successors a cell can have: 8, or 4 without diagonals.
    pub open spec fn max_successors(self) -> int {
        if self.allow_diagonals {
            8
        } else {
            4
        }
    }
}

pub(crate) proof fn lemma_index_in_range(w: int, h: int, x: int, y: int)
    requires
        0 <= x < w,
        0 <= y < h,
    ensures
        0 <= y * w + x < w * h,
{
    assert(0 <= y * w) by (nonlinear_arith)
        requires
            0 <= y,
            0 <= x < w,
    ;
    assert(y * w + x < w * h) by (nonlinear_arith)
        requires
            0 <= x < w,
            0 <= y < h,
    ;
}

proof fn lemma_scan_sound(g: GridView, a: Position, k: int)
    requires
        g.wf(),
        0 <= k <= 9,
    ensures
        forall|i: int|
            0 <= i < g.scan(a, k).len() ==> {
                let s = #[trigger] g.scan(a, k)[i];
                g.adjacent(a, s.position) && s.cost == g.entry_cost(s.position) as i32
            },
    decreases k,
{
    if k > 0 {
        lemma_scan_sound(g, a, k - 1);
        let prev = g.scan(a, k - 1);
        let step = g.scan_step(a, k - 1);
        assert forall|i: int| 0 <= i < g.scan(a, k).len() implies {
            let s = #[trigger] g.scan(a, k)[i];
            g.adjacent(a, s.position) && s.cost == g.entry_cost(s.position) as i32
        } by {
            if i >= prev.len() {
                assert(g.scan(a, k)[i] == step[i - prev.len()]);
                let x = a.0 + scan_dx(k - 1);
                let y = a.1 + scan_dy(k - 1);
                assert(g.in_bounds_xy(x, y));
                assert((x as i32) as int == x && (y as i32) as int == y);
            } else {
                assert(g.scan(a, k)[i] == prev[i]);
            }
        }
    }
}

proof fn lemma_scan_grows(g: GridView, a: Position, j: int, k: int)
    requires
        0 <= j < k <= 9,
    ensures
        forall|i: int|
            0 <= i < g.scan_step(a, j).len() ==> g.scan(a, k).contains(
                #[trigger] g.scan_step(a, j)[i],
            ),
    decreases k,
{
    let prev = g.scan(a, k - 1);
    let cur = g.scan(a, k);
    if j == k - 1 {
        assert forall|i: int| 0 <= i < g.scan_step(a, j).len() implies cur.contains(
            #[trigger] g.scan_step(a, j)[i],
        ) by {
            assert(cur[prev.len() + i] == g.scan_step(a, j)[i]);
        }
    } else {
        lemma_scan_grows(g, a, j, k - 1);
        assert forall|i: int| 0 <= i < g.scan_step(a, j).len() implies cur.contains(
            #[trigger] g.scan_step(a, j)[i],
        ) by {
            let e = g.scan_step(a, j)[i];
            let t = choose|t: int| 0 <= t < prev.len() && prev[t] == e;
            assert(cur[t] == e);
        }
    }
}

proof fn lemma_scan_complete(g: GridView, a: Position, b: Position)
    requires
        g.wf(),
        g.adjacent(a, b),
    ensures
        exists|i: int|
            0 <= i < g.successors(a).len() && (#[trigger] g.successors(a)[i]).position == b,
{
    let dx = b.0 - a.0;
    let dy = b.1 - a.1;
    let k = (dy + 1) * 3 + (dx + 1);
    assert(scan_dx(k) == dx && scan_dy(k) == dy);
    assert(b == Position((a.0 + dx) as i32, (a.1 + dy) as i32));
    assert(g.scan_step(a, k).len() == 1);
    lemma_scan_grows(g, a, k, 9);
    let e = g.scan_step(a, k)[0];
    assert(g.successors(a).contains(e));
    let t = choose|t: int| 0 <= t < g.successors(a).len() && g.successors(a)[t] == e;
    assert(g.successors(a)[t].position == b);
}

proof fn lemma_scan_len(g: GridView, a: Position, k: int)
    requires
        0 <= k <= 9,
    ensures
        g.scan(a, k).len() <= g.allowed_moves(k),
    decreases k,
{
    if k > 0 {
        lemma_scan_len(g, a, k - 1);
    }
}

proof fn lemma_allowed_moves(g: GridView)
    ensures
        g.allowed_moves(9) == g.max_successors(),
{
    reveal_with_fuel(GridView::allowed_moves, 10);
}

/// Every successor of `a` lies in the grid, is open, is one move away and
/// carries the cost of entering it; every open cell one move away is among
/// them; and there are at most 8 of them, or 4 without diagonals.
pub proof fn lemma_successors(g: GridView, a: Position)
    requires
        g.wf(),
    ensures
        g.successors(a).len() <= g.max_successors(),
        forall|i: int|
            0 <= i < g.successors(a).len() ==> {
                let s = #[trigger] g.successors(a)[i];
                &&& g.in_bounds(s.position)
                &&& !g.is_blocked(s.position)
                &&& g.adjacent(a, s.position)
                &&& s.cost == g.entry_cost(s.position) as i32
            },
        forall|b: Position|
            #[trigger] g.adjacent(a, b) ==> exists|i: int|
                0 <= i < g.successors(a).len() && (#[trigger] g.successors(a)[i]).position == b,
{
    lemma_scan_sound(g, a, 9);
    lemma_scan_len(g, a, 9);
    lemma_allowed_moves(g);
    assert forall|b: Position| #[trigger] g.adjacent(a, b) implies exists|i: int|
        0 <= i < g.successors(a).len() && (#[trigger] g.successors(a)[i]).position == b by {
        lemma_scan_complete(g, a, b);
    }
}

fn filled<T: Copy>(n: usize, v: T) -> (r: Vec<T>)
    ensures
        r@ == Seq::new(n as nat, |_i: int| v),
{
    let mut out: Vec<T> = Vec::new();
    let mut i: usize = 0;
    while i < n
        invariant
            i <= n,
            out@ == Seq::new(i as nat, |_i: int| v),
        decreases n - i,
    {
        out.push(v);
        i = i + 1;
        assert(out@ =~= Seq::new(i as nat, |_i: int| v));
    }
    out
}

impl Grid {
    /// A `width` x `height` grid with every cell open and of cost 1.
    pub fn new(width: i32, height: i32, allow_diagonals: bool) -> (r: Grid)
        requires
            width >= 1,
            height >= 1,
            width * height <= usize::MAX,
        ensures
            r@ == fresh_grid(width as int, height as int, allow_diagonals, Some(1i32)),
            r@.wf(),
    {
        let n = width as usize * height as usize;
        Grid {
            width,
            height,
            costs: filled(n, Some(1i32)),
            blocked: filled(n, false),
            allow_diagonals,
        }
    }

    /// Row-major index of the cell `(x, y)`.
    pub fn xy_idx(&self, x: i32, y: i32) -> (r: usize)
        requires
            self@.wf(),
            self@.in_bounds_xy(x as int, y as int),
        ensures
            r as int == self@.index_xy(x as int, y as int),
            r < self.costs.len(),
    {
        let n = self.costs.len();
        proof {
            lemma_index_in_range(self.width as int, self.height as int, x as int, y as int);
            assert(0 <= (y as int) * (self.width as int) <= (y as int) * (self.width as int) + (x as int) < n);
        }
        (y as usize) * (self.width as usize) + (x as usize)
    }

    /// The moves out of `position`, in row-major scan order of the neighborhood.
    pub fn get_successors(&self, position: &Position) -> (r: Vec<Successor>)
        requires
            self@.wf(),
        ensures
            r@ == self@.successors(*position),
            r@.len() <= self@.max_successors(),
            forall|i: int|
                0 <= i < r@.len() ==> {
                    let s = #[trigger] r@[i];
                    &&& self@.in_bounds(s.position)
                    &&& !self@.is_blocked(s.position)
                    &&& self@.adjacent(*position, s.position)
                    &&& s.cost == self@.entry_cost(s.position) as i32
                },
            forall|b: Position|
                #[trigger] self@.adjacent(*position, b) ==> exists|i: int|
                    0 <= i < r@.len() && (#[trigger] r@[i]).position == b,
    {
        let mut out: Vec<Successor> = Vec::new();
        let mut k: i32 = 0;
        while k < 9
            invariant
                0 <= k <= 9,
                self@.wf(),
                out@ == self@.scan(*position, k as int),
            decreases 9 - k,
        {
            let dx: i32 = k % 3 - 1;
            let dy: i32 = k / 3 - 1;
            let allowed = !(dx == 0 && dy == 0) && (self.allow_diagonals || dx == 0 || dy == 0);
            let x: i64 = position.0 as i64 + dx as i64;
            let y: i64 = position.1 as i64 + dy as i64;
            if allowed && 0 <= x && x < self.width as i64 && 0 <= y && y < self.height as i64 {
                let idx = self.xy_idx(x as i32, y as i32);
                if !self.blocked[idx] {
                    let cost: i32 = match self.costs[idx] {
                        Some(c) => c,
                        None => 1,
                    };
                    out.push(Successor { position: Position(x as i32, y as i32), cost });
                }
            }
            assert(out@ =~= self@.scan(*position, k + 1));
            k = k + 1;
        }
        proof {
            lemma_successors(self@, *position);
        }
        out
    }

    /// The cells one move away from `position`, in scan order.
    pub fn successor_positions(&self, position: &Position) -> (r: Vec<Position>)
        requires
            self@.wf(),
        ensures
            r@ == self@.successors(*position).map_values(|s: Successor| s.position),
    {
        let succ = self.get_successors(position);
        let mut out: Vec<Position> = Vec::new();
        let mut i: usize = 0;
        while i < succ.len()
            invariant
                i <= succ@.len(),
                out@ == succ@.subrange(0, i as int).map_values(|s: Successor| s.position),
            decreases succ.len() - i,
        {
            out.push(succ[i].position);
            i = i + 1;
            assert(out@ =~= succ@.subrange(0, i as int).map_values(|s: Successor| s.position));
        }
        assert(succ@.subrange(0, succ@.len() as int) =~= succ@);
        out
    }

    /// The cells one move away from `position` with the cost of entering each, in scan order.
    pub fn weighted_successors(&self, position: &Position) -> (r: Vec<(Position, u128)>)
        requires
            self@.wf(),
        ensures
            r@ == self@.successors(*position).map_values(
                |s: Successor| (s.position, s.cost as u128),
            ),
    {
        let succ = self.get_successors(position);
        let mut out: Vec<(Position, u128)> = Vec::new();
        let mut i: usize = 0;
        while i < succ.len()
            invariant
                i <= succ@.len(),
                out@ == succ@.subrange(0, i as int).map_values(
                    |s: Successor| (s.position, s.cost as u128),
                ),
            decreases succ.len() - i,
        {
            let s = succ[i];
            out.push((s.position, s.cost as u128));
            i = i + 1;
            assert(out@ =~= succ@.subrange(0, i as int).map_values(
                |s: Successor| (s.position, s.cost as u128),
            ));
        }
        assert(succ@.subrange(0, succ@.len() as int) =~= succ@);
        out
    }

    /// Marks `position` blocked or open; a position outside the grid changes nothing.
    pub fn set_blocked(&mut self, position: &Position, value: bool) -> (r: Result<(), CommandError>)
        requires
            old(self)@.wf(),
        ensures
            final(self)@.wf(),
            old(self)@.in_bounds(*position) ==> r is Ok && final(self)@ == (GridView {
                blocked: old(self)@.blocked.update(old(self)@.index(*position), value),
                ..old(self)@
            }),
            !old(self)@.in_bounds(*position) ==> r == Err::<(), CommandError>(
                CommandError::OutOfBounds,
            ) && final(self)@ == old(self)@,
    {
        if position.0 < 0 || position.0 >= self.width || position.1 < 0 || position.1
            >= self.height {
            return Err(CommandError::OutOfBounds);
        }
        let idx = self.xy_idx(position.0, position.1);
        self.blocked[idx] = value;
        Ok(())
    }

    /// Moves the cost of `position` by `delta`, never below 1 nor above `i32::MAX`;
    /// an unset cost stays unset and a position outside the grid changes nothing.
    pub fn set_cost(&mut self, position: &Position, delta: i32) -> (r: Result<(), CommandError>)
        requires
            old(self)@.wf(),
        ensures
            final(self)@.wf(),
            old(self)@.in_bounds(*position) ==> r is Ok && final(self)@ == (GridView {
                costs: old(self)@.costs.update(
                    old(self)@.index(*position),
                    adjusted_cost(old(self)@.costs[old(self)@.index(*position)], delta as int),
                ),
                ..old(self)@
            }),
            !old(self)@.in_bounds(*position) ==> r == Err::<(), CommandError>(
                CommandError::OutOfBounds,
            ) && final(self)@ == old(self)@,
    {
        if position.0 < 0 || position.0 >= self.width || position.1 < 0 || position.1
            >= self.height {
            return Err(CommandError::OutOfBounds);
        }
        let idx = self.xy_idx(position.0, position.1);
        match self.costs[idx] {
            Some(c) => {
                let n: i64 = c as i64 + delta as i64;
                let v: i32 = if n < 1 {
                    1
                } else if n > i32::MAX as i64 {
                    i32::MAX
                } else {
                    n as i32
                };
                self.costs[idx] = Some(v);
            },
            None => {},
        }
        assert(self.costs@ =~= old(self).costs@.update(
            idx as int,
            adjusted_cost(old(self).costs@[idx as int], delta as int),
        ));
        assert forall|i: int| 0 <= i < self.costs@.len() implies valid_cost(
            #[trigger] self.costs@[i],
        ) by {
            assert(i == idx || self.costs@[i] == old(self).costs@[i]);
        }
        Ok(())
    }

    /// Makes every cell open with cost `default_cost`, keeping the dimensions.
    pub fn reset(&mut self, default_cost: Option<i32>)
        requires
            old(self)@.wf(),
            valid_cost(default_cost),
        ensures
            final(self)@ == old(self)@.cleared(default_cost),
            final(self)@.wf(),
    {
        let n = self.costs.len();
        self.costs = filled(n, default_cost);
        self.blocked = filled(n, false);
    }
}

/// The grid a session starts on: 64 x 64, no diagonal moves, every cell of cost 1.
pub fn setup_map() -> (r: Grid)
    ensures
        r@ == fresh_grid(MAP_WIDTH as int, MAP_HEIGHT as int, false, Some(1i32)),
        r@.wf(),
{
    Grid::new(MAP_WIDTH, MAP_HEIGHT, false)
}

} // verus!
