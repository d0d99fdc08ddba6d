//! A square grid of spins with periodic boundary conditions.
use crate::random::draw_bool;
use crate::spin::Spin;
use rand::rngs::StdRng;
use vstd::arithmetic::div_mod::{lemma_mod_add_multiples_vanish, lemma_mod_self_0, lemma_small_mod};
use vstd::prelude::*;

verus! {

/// Every row of `g` has as many entries as `g` has rows.
pub open spec fn is_square(g: Seq<Seq<Spin>>) -> bool {
    forall|i: int| 0 <= i < g.len() ==> #[trigger] g[i].len() == g.len()
}

/// A grid that a `Lattice` can hold: square, not empty, and with a site count
/// that fits in `usize`.
pub open spec fn valid_grid(g: Seq<Seq<Spin>>) -> bool {
    &&& is_square(g)
    &&& g.len() >= 1
    &&& g.len() * g.len() <= usize::MAX
}

/// The numeric value of the spin at `(r, c)`.
pub open spec fn spin_value(g: Seq<Seq<Spin>>, r: int, c: int) -> int {
    g[r][c].spec_value()
}

/// Index `i - 1` wrapped onto `[0, n)`.
pub open spec fn wrap_prev(i: int, n: int) -> int {
    (i - 1 + n) % n
}

/// Index `i + 1` wrapped onto `[0, n)`.
pub open spec fn wrap_next(i: int, n: int) -> int {
    (i + 1) % n
}

/// The wrapped neighbours of an index in `[0, n)` are the adjacent indices,
/// with `0` and `n - 1` adjacent to each other.
pub proof fn lemma_wrap(i: int, n: int)
    requires
        0 <= i < n,
    ensures
        wrap_prev(i, n) == if i == 0 { n - 1 } else { i - 1 },
        wrap_next(i, n) == if i == n - 1 { 0 } else { i + 1 },
        0 <= wrap_prev(i, n) < n,
        0 <= wrap_next(i, n) < n,
{
    if i == 0 {
        lemma_small_mod((n - 1) as nat, n as nat);
    } else {
        lemma_mod_add_multiples_vanish(i - 1, n);
        lemma_small_mod((i - 1) as nat, n as nat);
    }
    if i == n - 1 {
        lemma_mod_self_0(n);
    } else {
        lemma_small_mod((i + 1) as nat, n as nat);
    }
}

/// The sum of the four neighbours of `(r, c)` on the torus.
pub open spec fn neighbour_sum(g: Seq<Seq<Spin>>, r: int, c: int) -> int {
    let n = g.len() as int;
    spin_value(g, wrap_prev(r, n), c) + spin_value(g, wrap_next(r, n), c) + spin_value(
        g,
        r,
        wrap_prev(c, n),
    ) + spin_value(g, r, wrap_next(c, n))
}

/// The energy change that flipping the spin at `(r, c)` would cause:
/// `2 * s(r, c) * (s(top) + s(bottom) + s(left) + s(right))`.
pub open spec fn energy_delta(g: Seq<Seq<Spin>>, r: int, c: int) -> int {
    2 * spin_value(g, r, c) * neighbour_sum(g, r, c)
}

/// The grid `g` with the spin at `(r, c)` flipped.
pub open spec fn with_flip(g: Seq<Seq<Spin>>, r: int, c: int) -> Seq<Seq<Spin>> {
    g.update(r, g[r].update(c, g[r][c].flipped()))
}

/// The number of `Up` spins in one row.
pub open spec fn row_ups(s: Seq<Spin>) -> nat
    decreases s.len(),
{
    if s.len() == 0 {
        0
    } else {
        row_ups(s.drop_last()) + if s.last() == Spin::Up {
            1nat
        } else {
            0nat
        }
    }
}

/// The number of `Up` spins in a grid.
pub open spec fn grid_ups(g: Seq<Seq<Spin>>) -> nat
    decreases g.len(),
{
    if g.len() == 0 {
        0
    } else {
        grid_ups(g.drop_last()) + row_ups(g.last())
    }
}

/// The spin that a coin draw gives: `Up` for true, `Down` for false.
pub open spec fn spin_of(b: bool) -> Spin {
    if b {
        Spin::Up
    } else {
        Spin::Down
    }
}

/// The grey level of a spin in a raster image: black for `Up`, white for `Down`.
pub open spec fn shade(s: Spin) -> u8 {
    match s {
        Spin::Up => 0u8,
        Spin::Down => 255u8,
    }
}

/// The grey levels of a grid, row after row.
pub open spec fn pixels_of(g: Seq<Seq<Spin>>) -> Seq<u8>
    decreases g.len(),
{
    if g.len() == 0 {
        Seq::empty()
    } else {
        pixels_of(g.drop_last()) + g.last().map_values(|s: Spin| shade(s))
    }
}

/// A row has at most as many `Up` spins as entries, all of them when every entry
/// is `Up`, and none when every entry is `Down`.
pub proof fn lemma_row_ups_bounds(s: Seq<Spin>)
    ensures
        row_ups(s) <= s.len(),
        (forall|j: int| 0 <= j < s.len() ==> #[trigger] s[j] == Spin::Up) ==> row_ups(s) == s.len(),
        (forall|j: int| 0 <= j < s.len() ==> #[trigger] s[j] == Spin::Down) ==> row_ups(s) == 0,
    decreases s.len(),
{
    if s.len() > 0 {
        lemma_row_ups_bounds(s.drop_last());
        assert(forall|j: int| 0 <= j < s.len() - 1 ==> #[trigger] s.drop_last()[j] == s[j]);
    }
}

/// A grid whose rows all have `n` entries has at most `g.len() * n` `Up` spins,
/// all of them when every site is `Up`, and none when every site is `Down`.
pub proof fn lemma_grid_ups_bounds(g: Seq<Seq<Spin>>, n: nat)
    requires
        forall|i: int| 0 <= i < g.len() ==> #[trigger] g[i].len() == n,
    ensures
        grid_ups(g) <= g.len() * n,
        (forall|i: int, j: int| 0 <= i < g.len() && 0 <= j < n ==> #[trigger] g[i][j] == Spin::Up)
            ==> grid_ups(g) == g.len() * n,
        (forall|i: int, j: int|
            0 <= i < g.len() && 0 <= j < n ==> #[trigger] g[i][j] == Spin::Down) ==> grid_ups(g)
            == 0,
    decreases g.len(),
{
    if g.len() > 0 {
        let h = g.drop_last();
        assert(forall|i: int| 0 <= i < h.len() ==> #[trigger] h[i] == g[i]);
        lemma_grid_ups_bounds(h, n);
        lemma_row_ups_bounds(g.last());
        assert(g.len() * n == h.len() * n + n) by (nonlinear_arith)
            requires
                h.len() == g.len() - 1,
        ;
        if forall|i: int, j: int| 0 <= i < g.len() && 0 <= j < n ==> #[trigger] g[i][j] == Spin::Up {
            assert(forall|j: int| 0 <= j < n ==> #[trigger] g.last()[j] == g[g.len() - 1][j]);
        }
        if forall|i: int, j: int| 0 <= i < g.len() && 0 <= j < n ==> #[trigger] g[i][j]
            == Spin::Down {
            assert(forall|j: int| 0 <= j < n ==> #[trigger] g.last()[j] == g[g.len() - 1][j]);
        }
    }
}

/// The number of `Up` sites of a lattice lies between `0` and `size * size`; it
/// is `size * size` when every site is `Up` and `0` when every site is `Down`.
pub proof fn lemma_up_count_bounds(g: Seq<Seq<Spin>>)
    requires
        valid_grid(g),
    ensures
        0 <= grid_ups(g) <= g.len() * g.len(),
        (forall|i: int, j: int| 0 <= i < g.len() && 0 <= j < g.len() ==> #[trigger] g[i][j] == Spin::Up)
            ==> grid_ups(g) == g.len() * g.len(),
        (forall|i: int, j: int|
            0 <= i < g.len() && 0 <= j < g.len() ==> #[trigger] g[i][j] == Spin::Down) ==> grid_ups(g)
            == 0,
{
    lemma_grid_ups_bounds(g, g.len());
}

/// Flipping the same site twice restores the grid, and with it the number of `Up` sites.
pub proof fn lemma_flip_twice(g: Seq<Seq<Spin>>, r: int, c: int)
    requires
        valid_grid(g),
        0 <= r < g.len(),
        0 <= c < g.len(),
    ensures
        with_flip(with_flip(g, r, c), r, c) == g,
        grid_ups(with_flip(with_flip(g, r, c), r, c)) == grid_ups(g),
{
    let once = with_flip(g, r, c);
    assert(once[r] == g[r].update(c, g[r][c].flipped()));
    assert(once[r][c].flipped() == g[r][c]);
    assert(once[r].update(c, once[r][c].flipped()) =~= g[r]);
    assert(with_flip(once, r, c) =~= g);
}

/// The outcome of building a lattice of side `size`: an error for a zero side or
/// for a site count beyond `usize`, else `Ok`.
pub open spec fn size_check(size: int) -> Result<(), LatticeError> {
    if size == 0 {
        Err(LatticeError::ZeroSize)
    } else if size * size > usize::MAX {
        Err(LatticeError::TooLarge)
    } else {
        Ok(())
    }
}

/// The outcome of building a lattice from the rows `g`.
pub open spec fn rows_check(g: Seq<Seq<Spin>>) -> Result<(), LatticeError> {
    if g.len() == 0 {
        Err(LatticeError::ZeroSize)
    } else if !is_square(g) {
        Err(LatticeError::NotSquare)
    } else {
        size_check(g.len() as int)
    }
}

/// Why a lattice could not be built.
#[derive(Clone, Copy, Debug, PartialEq, Eq, Structural)]
pub enum LatticeError {
    /// The side length is zero.
    ZeroSize,
    /// The rows given do not form a square.
    NotSquare,
    /// The number of sites does not fit in `usize`.
    TooLarge,
}

/// A square grid of spins whose neighbour relation wraps around both edges.
pub struct Lattice {
    cells: Vec<Vec<Spin>>,
}

impl View for Lattice {
    type V = Seq<Seq<Spin>>;

    closed spec fn view(&self) -> Seq<Seq<Spin>> {
        self.cells@.map_values(|row: Vec<Spin>| row@)
    }
}

impl Lattice {
    /// The lattice is well formed: its grid is square, non-empty and small enough.
    pub open spec fn wf(&self) -> bool {
        valid_grid(self@)
    }

    /// Each row of the view is the view of the stored row.
    proof fn lemma_rows(&self)
        ensures
            self.cells@.len() == self@.len(),
            forall|i: int|
                0 <= i < self@.len() ==> #[trigger] self.cells@[i]@ == self@[i],
    {
    }

    /// Checks that a lattice of side `size` can be built.
    fn check_size(size: usize) -> (r: Result<(), LatticeError>)
        ensures
            r == size_check(size as int),
    {
        if size == 0 {
            Err(LatticeError::ZeroSize)
        } else if size.checked_mul(size).is_none() {
            Err(LatticeError::TooLarge)
        } else {
            Ok(())
        }
    }

    /// Builds a `size` by `size` lattice whose sites are drawn independently,
    /// each `Up` or `Down` with equal chance, from `rng`: `size * size` coins are
    /// drawn in turn and laid out row after row by `from_draws`.
    pub fn initialize(size: usize, rng: &mut StdRng) -> (r: Result<Lattice, LatticeError>)
        ensures
            size_check(size as int) is Err ==> r == Err::<Lattice, LatticeError>(
                size_check(size as int)->Err_0,
            ),
            size_check(size as int) is Ok ==> r is Ok && r->Ok_0.wf() && r->Ok_0@.len() == size,
    {
        match Self::check_size(size) {
            Err(e) => {
                return Err(e);
            },
            Ok(()) => {},
        }
        let sites = size * size;
        let mut bits: Vec<bool> = Vec::new();
        let mut k: usize = 0;
        while k < sites
            invariant
                k <= sites,
                bits@.len() == k,
            decreases sites - k,
        {
            bits.push(draw_bool(rng));
            k += 1;
        }
        Self::from_draws(size, &bits)
    }

    /// Builds a `size` by `size` lattice from coin draws laid out row after row:
    /// the site `(i, j)` is `Up` when `bits[i * size + j]` is true, else `Down`.
    pub fn from_draws(size: usize, bits: &Vec<bool>) -> (r: Result<Lattice, LatticeError>)
        requires
            bits@.len() == size * size,
        ensures
            size == 0 ==> r == Err::<Lattice, LatticeError>(LatticeError::ZeroSize),
            size > 0 ==> r is Ok && r->Ok_0.wf() && r->Ok_0@.len() == size,
            r is Ok ==> forall|i: int, j: int|
                0 <= i < size && 0 <= j < size ==> #[trigger] r->Ok_0@[i][j] == spin_of(
                    bits@[i * size + j],
                ),
    {
        if size == 0 {
            return Err(LatticeError::ZeroSize);
        }
        let sites = bits.len();
        let mut cells: Vec<Vec<Spin>> = Vec::new();
        let mut i: usize = 0;
        while i < size
            invariant
                bits@.len() == size * size,
                sites == size * size,
                i <= size,
                cells@.len() == i,
                forall|k: int| 0 <= k < i ==> #[trigger] cells@[k]@.len() == size,
                forall|k: int, j: int|
                    0 <= k < i && 0 <= j < size ==> #[trigger] cells@[k]@[j] == spin_of(
                        bits@[k * size + j],
                    ),
            decreases size - i,
        {
            let mut row: Vec<Spin> = Vec::new();
            let mut j: usize = 0;
            while j < size
                invariant
                    bits@.len() == size * size,
                    sites == size * size,
                    i < size,
                    j <= size,
                    row@.len() == j,
                    forall|k: int| 0 <= k < j ==> #[trigger] row@[k] == spin_of(bits@[i * size + k]),
                decreases size - j,
            {
                assert(i * size + j < size * size && 0 <= i * size) by (nonlinear_arith)
                    requires
                        i < size,
                        j < size,
                ;
                let spin = if bits[i * size + j] {
                    Spin::Up
                } else {
                    Spin::Down
                };
                row.push(spin);
                j += 1;
            }
            cells.push(row);
            i += 1;
        }
        let lattice = Lattice { cells };
        proof {
            lattice.lemma_rows();
        }
        Ok(lattice)
    }

    /// Builds a `size` by `size` lattice with `spin` at every site.
    pub fn uniform(size: usize, spin: Spin) -> (r: Result<Lattice, LatticeError>)
        ensures
            size_check(size as int) is Err ==> r == Err::<Lattice, LatticeError>(
                size_check(size as int)->Err_0,
            ),
            size_check(size as int) is Ok ==> r is Ok && r->Ok_0.wf() && r->Ok_0@.len() == size,
            r is Ok ==> forall|i: int, j: int|
                0 <= i < size && 0 <= j < size ==> #[trigger] r->Ok_0@[i][j] == spin,
    {
        match Self::check_size(size) {
            Err(e) => {
                return Err(e);
            },
            Ok(()) => {},
        }
        let mut cells: Vec<Vec<Spin>> = Vec::new();
        let mut i: usize = 0;
        while i < size
            invariant
                i <= size,
                cells@.len() == i,
                forall|k: int| 0 <= k < i ==> #[trigger] cells@[k]@.len() == size,
                forall|k: int, j: int| 0 <= k < i && 0 <= j < size ==> #[trigger] cells@[k]@[j] == spin,
            decreases size - i,
        {
            let mut row: Vec<Spin> = Vec::new();
            let mut j: usize = 0;
            while j < size
                invariant
                    j <= size,
                    row@.len() == j,
                    forall|k: int| 0 <= k < j ==> #[trigger] row@[k] == spin,
                decreases size - j,
            {
                row.push(spin);
                j += 1;
            }
            cells.push(row);
            i += 1;
        }
        let lattice = Lattice { cells };
        proof {
            lattice.lemma_rows();
        }
        Ok(lattice)
    }

    /// Builds a lattice holding the given rows, which must form a non-empty square.
    pub fn from_rows(rows: Vec<Vec<Spin>>) -> (r: Result<Lattice, LatticeError>)
        ensures
            rows_check(rows@.map_values(|row: Vec<Spin>| row@)) is Err ==> r
                == Err::<Lattice, LatticeError>(
                rows_check(rows@.map_values(|row: Vec<Spin>| row@))->Err_0,
            ),
            rows_check(rows@.map_values(|row: Vec<Spin>| row@)) is Ok ==> r is Ok && r->Ok_0.wf()
                && r->Ok_0@ == rows@.map_values(|row: Vec<Spin>| row@),
    {
        let ghost g = rows@.map_values(|row: Vec<Spin>| row@);
        let n = rows.len();
        if n == 0 {
            return Err(LatticeError::ZeroSize);
        }
        let mut i: usize = 0;
        while i < n
            invariant
                n == rows@.len(),
                g == rows@.map_values(|row: Vec<Spin>| row@),
                i <= n,
                forall|k: int| 0 <= k < i ==> #[trigger] g[k].len() == n,
            decreases n - i,
        {
            if rows[i].len() != n {
                assert(g[i as int].len() != g.len());
                return Err(LatticeError::NotSquare);
            }
            i += 1;
        }
        match Self::check_size(n) {
            Err(e) => {
                return Err(e);
            },
            Ok(()) => {},
        }
        Ok(Lattice { cells: rows })
    }

    /// The number of `Up` sites.
    pub fn up_count(&self) -> (r: usize)
        requires
            self.wf(),
        ensures
            r == grid_ups(self@),
            r <= self@.len() * self@.len(),
    {
        proof {
            self.lemma_rows();
        }
        let ghost g = self@;
        let n = self.cells.len();
        let mut count: usize = 0;
        let mut i: usize = 0;
        while i < n
            invariant
                g == self@,
                valid_grid(g),
                n == g.len(),
                i <= n,
                count == grid_ups(g.take(i as int)),
                count <= i * n,
                forall|k: int| 0 <= k < n ==> #[trigger] self.cells@[k]@ == g[k],
            decreases n - i,
        {
            let row = &self.cells[i];
            let ghost before = count;
            let mut j: usize = 0;
            while j < n
                invariant
                    g == self@,
                    valid_grid(g),
                    n == g.len(),
                    i < n,
                    row@ == g[i as int],
                    j <= n,
                    before == grid_ups(g.take(i as int)),
                    before <= i * n,
                    count == before + row_ups(row@.take(j as int)),
                    count <= before + j,
                decreases n - j,
            {
                assert(row@.take(j + 1).drop_last() =~= row@.take(j as int));
                assert((i + 1) * n <= n * n) by (nonlinear_arith)
                    requires
                        i < n,
                ;
                assert(i * n + n == (i + 1) * n) by (nonlinear_arith);
                if row[j].is_up() {
                    count += 1;
                }
                j += 1;
            }
            assert(row@.take(n as int) =~= row@);
            assert(g.take(i + 1).drop_last() =~= g.take(i as int));
            assert(i * n + n == (i + 1) * n) by (nonlinear_arith);
            i += 1;
        }
        assert(g.take(n as int) =~= g);
        count
    }

    /// Read-only access to the rows of the lattice, for rendering.
    pub fn snapshot(&self) -> (r: &Vec<Vec<Spin>>)
        ensures
            r@.map_values(|row: Vec<Spin>| row@) == self@,
    {
        &self.cells
    }

    /// The grey levels of the sites, row after row: `0` for `Up`, `255` for `Down`.
    pub fn grayscale_pixels(&self) -> (r: Vec<u8>)
        requires
            self.wf(),
        ensures
            r@ == pixels_of(self@),
            r@.len() == self@.len() * self@.len(),
    {
        proof {
            self.lemma_rows();
        }
        let ghost g = self@;
        let n = self.cells.len();
        let mut out: Vec<u8> = Vec::new();
        let mut i: usize = 0;
        while i < n
            invariant
                g == self@,
                valid_grid(g),
                n == g.len(),
                i <= n,
                out@ == pixels_of(g.take(i as int)),
                out@.len() == i * n,
                forall|k: int| 0 <= k < n ==> #[trigger] self.cells@[k]@ == g[k],
            decreases n - i,
        {
            let row = &self.cells[i];
            let ghost before = out@;
            let mut j: usize = 0;
            while j < n
                invariant
                    g == self@,
                    valid_grid(g),
                    n == g.len(),
                    i < n,
                    row@ == g[i as int],
                    j <= n,
                    before == pixels_of(g.take(i as int)),
                    before.len() == i * n,
                    out@ == before + row@.take(j as int).map_values(|s: Spin| shade(s)),
                decreases n - j,
            {
                assert((i + 1) * n <= n * n) by (nonlinear_arith)
                    requires
                        i < n,
                ;
                assert(i * n + n == (i + 1) * n) by (nonlinear_arith);
                let level: u8 = match row[j] {
                    Spin::Up => 0,
                    Spin::Down => 255,
                };
                out.push(level);
                assert(row@.take(j + 1).map_values(|s: Spin| shade(s)) =~= row@.take(
                    j as int,
                ).map_values(|s: Spin| shade(s)).push(level));
                j += 1;
            }
            assert(row@.take(n as int) =~= row@);
            assert(g.take(i + 1).drop_last() =~= g.take(i as int));
            assert(i * n + n == (i + 1) * n) by (nonlinear_arith);
            i += 1;
        }
        assert(g.take(n as int) =~= g);
        out
    }

    /// The number of sites, `size * size`: the denominator of the magnetization.
    pub fn site_count(&self) -> (r: usize)
        requires
            self.wf(),
        ensures
            r == self@.len() * self@.len(),
    {
        self.cells.len() * self.cells.len()
    }

    /// The side length of the lattice.
    pub fn size(&self) -> (r: usize)
        ensures
            r == self@.len(),
    {
        self.cells.len()
    }

    /// The spin at `(row, col)`.
    pub fn get(&self, row: usize, col: usize) -> (r: Spin)
        requires
            self.wf(),
            row < self@.len(),
            col < self@.len(),
        ensures
            r == self@[row as int][col as int],
    {
        self.cells[row][col]
    }

    /// The sum of the four neighbours of `(row, col)`, across the wrapped edges.
    fn neighbour_total(&self, row: usize, col: usize) -> (r: i32)
        requires
            self.wf(),
            row < self@.len(),
            col < self@.len(),
        ensures
            r == neighbour_sum(self@, row as int, col as int),
            -4 <= r <= 4,
    {
        let n = self.cells.len();
        let up = if row == 0 { n - 1 } else { row - 1 };
        let down = if row == n - 1 { 0 } else { row + 1 };
        let left = if col == 0 { n - 1 } else { col - 1 };
        let right = if col == n - 1 { 0 } else { col + 1 };
        proof {
            lemma_wrap(row as int, n as int);
            lemma_wrap(col as int, n as int);
            self.lemma_rows();
        }
        self.cells[up][col].value() + self.cells[down][col].value() + self.cells[row][left].value()
            + self.cells[row][right].value()
    }

    /// The energy change that flipping the spin at `(row, col)` would cause,
    /// with neighbours looked up across the wrapped edges. Does not change the lattice.
    pub fn local_energy_delta(&self, row: usize, col: usize) -> (r: i32)
        requires
            self.wf(),
            row < self@.len(),
            col < self@.len(),
        ensures
            r == energy_delta(self@, row as int, col as int),
            -8 <= r <= 8,
    {
        let sum = self.neighbour_total(row, col);
        proof {
            self.lemma_rows();
        }
        match self.cells[row][col] {
            Spin::Up => 2 * sum,
            Spin::Down => {
                assert(energy_delta(self@, row as int, col as int) == -2 * sum);
                0 - 2 * sum
            },
        }
    }

    /// Toggles the spin at `(row, col)`; every other site keeps its spin.
    pub fn flip(&mut self, row: usize, col: usize)
        requires
            old(self).wf(),
            row < old(self)@.len(),
            col < old(self)@.len(),
        ensures
            final(self)@ == with_flip(old(self)@, row as int, col as int),
            final(self).wf(),
    {
        proof {
            self.lemma_rows();
        }
        self.cells[row][col].flip();
        assert(self@ =~= with_flip(old(self)@, row as int, col as int));
    }
}

} // verus!
