//! Single-spin-flip Metropolis dynamics and the driver that runs them.
use crate::lattice::{energy_delta, with_flip, Lattice};
use crate::random::{draw_index, draw_u64};
use crate::spin::Spin;
use rand::rngs::StdRng;
use vstd::prelude::*;

verus! {

/// The chance of accepting an energy-raising move, for each energy change such a
/// move can have on a square lattice (`4` and `8`), as a fixed-point fraction of
/// `2^64`: a move is accepted when a uniform 64-bit draw falls below it.
#[derive(Clone, Copy, Debug, PartialEq, Eq, Structural)]
pub struct Acceptance {
    pub at_four: u64,
    pub at_eight: u64,
}

/// The threshold that applies to an energy change of `delta > 0`.
pub open spec fn threshold(a: Acceptance, delta: int) -> u64 {
    if delta <= 4 {
        a.at_four
    } else {
        a.at_eight
    }
}

impl Acceptance {
    /// Thresholds for energy changes of `4` and `8`.
    pub fn new(at_four: u64, at_eight: u64) -> (r: Acceptance)
        ensures
            r.at_four == at_four,
            r.at_eight == at_eight,
    {
        Acceptance { at_four, at_eight }
    }

    /// Thresholds that accept no energy-raising move: the zero-temperature limit.
    pub fn frozen() -> (r: Acceptance)
        ensures
            r.at_four == 0,
            r.at_eight == 0,
    {
        Acceptance { at_four: 0, at_eight: 0 }
    }

    /// The threshold for an energy change of `delta`.
    pub fn threshold_for(&self, delta: i32) -> (r: u64)
        ensures
            r == threshold(*self, delta as int),
    {
        if delta <= 4 {
            self.at_four
        } else {
            self.at_eight
        }
    }
}

/// Whether an energy-raising move with change `delta` is accepted, given the
/// uniform 64-bit `draw`.
pub fn uphill_accepted(delta: i32, draw: u64, acceptance: &Acceptance) -> (r: bool)
    ensures
        r == (draw < threshold(*acceptance, delta as int)),
{
    draw < acceptance.threshold_for(delta)
}

/// The grid after one Metropolis proposal at `(r, c)` with uniform 64-bit draw `d`:
/// the spin is flipped when the energy does not rise, or when `d` falls below the
/// threshold for the rise; otherwise the grid is kept.
pub open spec fn proposal(g: Seq<Seq<Spin>>, r: int, c: int, d: u64, a: Acceptance) -> Seq<
    Seq<Spin>,
> {
    if energy_delta(g, r, c) <= 0 || d < threshold(a, energy_delta(g, r, c)) {
        with_flip(g, r, c)
    } else {
        g
    }
}

/// A proposal that does not raise the energy flips its site whatever the draw.
pub proof fn lemma_downhill_ignores_draw(g: Seq<Seq<Spin>>, r: int, c: int, d: u64, a: Acceptance)
    requires
        energy_delta(g, r, c) <= 0,
    ensures
        proposal(g, r, c, d, a) == with_flip(g, r, c),
{
}

/// A proposal at `(r, c)` changes no site but `(r, c)`.
pub proof fn lemma_proposal_is_local(g: Seq<Seq<Spin>>, r: int, c: int, d: u64, a: Acceptance)
    requires
        0 <= r < g.len(),
        0 <= c < g[r].len(),
    ensures
        proposal(g, r, c, d, a).len() == g.len(),
        forall|i: int, j: int|
            0 <= i < g.len() && 0 <= j < g[i].len() && (i != r || j != c) ==> #[trigger] proposal(
                g,
                r,
                c,
                d,
                a,
            )[i][j] == g[i][j],
{
}

/// The grid after the proposals `moves`, each a site and a draw, made in order.
pub open spec fn proposals(g: Seq<Seq<Spin>>, moves: Seq<(int, int, u64)>, a: Acceptance) -> Seq<
    Seq<Spin>,
>
    decreases moves.len(),
{
    if moves.len() == 0 {
        g
    } else {
        let m = moves.last();
        proposal(proposals(g, moves.drop_last(), a), m.0, m.1, m.2, a)
    }
}

/// One Metropolis proposal at `(row, col)`: a move that does not raise the energy
/// is always made, without drawing from `rng`; otherwise one 64-bit word is drawn
/// and the move is made when `uphill_accepted` says so. Returns whether the spin
/// was flipped.
pub fn metropolis_step(
    lattice: &mut Lattice,
    row: usize,
    col: usize,
    acceptance: &Acceptance,
    rng: &mut StdRng,
) -> (flipped: bool)
    requires
        old(lattice).wf(),
        row < old(lattice)@.len(),
        col < old(lattice)@.len(),
    ensures
        final(lattice).wf(),
        final(lattice)@.len() == old(lattice)@.len(),
        flipped ==> final(lattice)@ == with_flip(old(lattice)@, row as int, col as int),
        !flipped ==> final(lattice)@ == old(lattice)@,
        exists|d: u64|
            final(lattice)@ == #[trigger] proposal(
                old(lattice)@,
                row as int,
                col as int,
                d,
                *acceptance,
            ),
        energy_delta(old(lattice)@, row as int, col as int) <= 0 ==> flipped && *final(rng) == *old(
            rng,
        ),
        energy_delta(old(lattice)@, row as int, col as int) > 0 && threshold(
            *acceptance,
            energy_delta(old(lattice)@, row as int, col as int),
        ) == 0 ==> !flipped,
{
    let ghost g = lattice@;
    let delta = lattice.local_energy_delta(row, col);
    if delta <= 0 {
        lattice.flip(row, col);
        assert(lattice@ == proposal(g, row as int, col as int, 0, *acceptance));
        true
    } else {
        let draw = draw_u64(rng);
        if uphill_accepted(delta, draw, acceptance) {
            lattice.flip(row, col);
            assert(lattice@ == proposal(g, row as int, col as int, draw, *acceptance));
            true
        } else {
            assert(lattice@ == proposal(g, row as int, col as int, draw, *acceptance));
            false
        }
    }
}

/// Whether an observation is due after proposal `step`: never at verbosity `0`,
/// after each full sweep of `sweep` proposals at verbosity `1`, and after every
/// proposal from verbosity `2` on.
pub open spec fn observes(verbosity: int, sweep: int, step: int) -> bool {
    verbosity >= 2 || (verbosity == 1 && step % sweep == 0)
}

/// Whether an observation is due after proposal `step`.
pub fn observes_at(verbosity: usize, sweep: usize, step: usize) -> (r: bool)
    requires
        sweep > 0,
    ensures
        r == observes(verbosity as int, sweep as int, step as int),
{
    verbosity >= 2 || (verbosity == 1 && step % sweep == 0)
}

/// Why a simulation could not be set up.
#[derive(Clone, Copy, Debug, PartialEq, Eq, Structural)]
pub enum SimulationError {
    /// `iterations * size * size` does not fit in `usize`.
    TooManySteps,
}

/// Where the driver stands.
#[derive(Clone, Copy, Debug, PartialEq, Eq, Structural)]
pub enum Phase {
    /// The initial observation has not been offered yet.
    Ready,
    /// Proposals remain.
    Running,
    /// The run is over; the final observation has been offered.
    Done,
}

/// What the driver hands back to its caller.
#[derive(Clone, Copy, Debug, PartialEq, Eq, Structural)]
pub enum Event {
    /// The lattice is to be observed at this step.
    Observe(usize),
    /// The run is over; the lattice is to be observed at this final step.
    Finished(usize),
}

/// The Metropolis driver: it owns the lattice and proposes single-spin flips at
/// random sites, `iterations * size * size` steps counted from `1` up to but not
/// including that total, and pauses whenever the lattice is to be observed.
pub struct Simulation {
    lattice: Lattice,
    acceptance: Acceptance,
    verbosity: usize,
    sweep: usize,
    total: usize,
    step: usize,
    phase: Phase,
}

impl Simulation {
    /// The lattice as it stands.
    pub closed spec fn grid(&self) -> Seq<Seq<Spin>> {
        self.lattice@
    }

    /// The number of proposals in one sweep: `size * size`.
    pub closed spec fn sweep_len(&self) -> int {
        self.sweep as int
    }

    /// The bound of the step counter: `iterations * size * size`.
    pub closed spec fn total_len(&self) -> int {
        self.total as int
    }

    /// The last step whose proposal has been made (`0` before the first).
    pub closed spec fn step_done(&self) -> int {
        self.step as int
    }

    /// The verbosity that sets the cadence of observations.
    pub closed spec fn cadence(&self) -> int {
        self.verbosity as int
    }

    /// Where the driver stands.
    pub closed spec fn phase_of(&self) -> Phase {
        self.phase
    }

    /// The acceptance thresholds in use.
    pub closed spec fn acceptance_of(&self) -> Acceptance {
        self.acceptance
    }

    /// The driver's state is consistent.
    pub closed spec fn wf(&self) -> bool {
        &&& self.lattice.wf()
        &&& self.sweep == self.lattice@.len() * self.lattice@.len()
        &&& self.sweep >= 1
        &&& self.total % self.sweep == 0
        &&& (self.step < self.total || self.step == 0)
        &&& (self.phase == Phase::Ready ==> self.step == 0)
    }

    /// Sets up a run of `iterations` sweeps of `lattice`, observed at the cadence
    /// that `verbosity` sets, with energy-raising moves accepted by `acceptance`.
    pub fn new(lattice: Lattice, iterations: usize, verbosity: usize, acceptance: Acceptance) -> (r:
        Result<Simulation, SimulationError>)
        requires
            lattice.wf(),
        ensures
            iterations * (lattice@.len() * lattice@.len()) > usize::MAX ==> r == Err::<
                Simulation,
                SimulationError,
            >(SimulationError::TooManySteps),
            iterations * (lattice@.len() * lattice@.len()) <= usize::MAX ==> r is Ok && r->Ok_0.wf()
                && r->Ok_0.grid() == lattice@ && r->Ok_0.phase_of() == Phase::Ready
                && r->Ok_0.step_done() == 0 && r->Ok_0.sweep_len() == lattice@.len() * lattice@.len()
                && r->Ok_0.total_len() == iterations * (lattice@.len() * lattice@.len())
                && r->Ok_0.cadence() == verbosity && r->Ok_0.acceptance_of() == acceptance,
    {
        let n = lattice.size();
        let sweep = n * n;
        assert(sweep >= 1) by (nonlinear_arith)
            requires
                sweep == n * n,
                n >= 1,
        ;
        match iterations.checked_mul(sweep) {
            None => Err(SimulationError::TooManySteps),
            Some(total) => {
                assert(total % sweep == 0) by (nonlinear_arith)
                    requires
                        total == iterations * sweep,
                        sweep > 0,
                ;
                Ok(
                    Simulation {
                        lattice,
                        acceptance,
                        verbosity,
                        sweep,
                        total,
                        step: 0,
                        phase: Phase::Ready,
                    },
                )
            },
        }
    }

    /// The lattice as it stands.
    pub fn lattice(&self) -> (r: &Lattice)
        ensures
            r@ == self.grid(),
            self.wf() ==> r.wf(),
    {
        &self.lattice
    }

    /// The last step whose proposal has been made (`0` before the first).
    pub fn step(&self) -> (r: usize)
        ensures
            r == self.step_done(),
    {
        self.step
    }

    /// The step of the final observation: `iterations * size * size`.
    pub fn total_steps(&self) -> (r: usize)
        ensures
            r == self.total_len(),
    {
        self.total
    }

    /// Runs the simulation on until the next observation is due.
    ///
    /// The first call offers the initial lattice at step `0`. Each later call makes
    /// proposals at sites drawn uniformly from `rng`, one per step, and stops after
    /// the first step at which `observes` holds, handing it back; when the steps
    /// run out it offers the final lattice at step `iterations * size * size`, as
    /// it does on every call after that.
    pub fn advance(&mut self, rng: &mut StdRng) -> (r: Event)
        requires
            old(self).wf(),
        ensures
            final(self).wf(),
            final(self).sweep_len() == old(self).sweep_len(),
            final(self).total_len() == old(self).total_len(),
            final(self).cadence() == old(self).cadence(),
            final(self).acceptance_of() == old(self).acceptance_of(),
            final(self).grid().len() == old(self).grid().len(),
            final(self).step_done() >= old(self).step_done(),
            final(self).step_done() == old(self).step_done() ==> final(self).grid() == old(
                self,
            ).grid() && *final(rng) == *old(rng),
            exists|moves: Seq<(int, int, u64)>|
                moves.len() == final(self).step_done() - old(self).step_done() && (forall|k: int|
                    0 <= k < moves.len() ==> 0 <= #[trigger] moves[k].0 < old(self).grid().len()
                        && 0 <= moves[k].1 < old(self).grid().len()) && final(self).grid()
                    == proposals(old(self).grid(), moves, old(self).acceptance_of()),
            old(self).phase_of() == Phase::Ready ==> r == Event::Observe(0) && final(self).phase_of()
                == Phase::Running && final(self).step_done() == 0,
            old(self).phase_of() == Phase::Done ==> r == Event::Finished(
                old(self).total_len() as usize,
            ) && *final(self) == *old(self),
            old(self).phase_of() == Phase::Running ==> match r {
                Event::Observe(s) => {
                    &&& old(self).step_done() < s < old(self).total_len()
                    &&& observes(old(self).cadence(), old(self).sweep_len(), s as int)
                    &&& final(self).step_done() == s
                    &&& final(self).phase_of() == Phase::Running
                    &&& forall|k: int|
                        old(self).step_done() < k < s ==> !#[trigger] observes(
                            old(self).cadence(),
                            old(self).sweep_len(),
                            k,
                        )
                },
                Event::Finished(t) => {
                    &&& t == old(self).total_len()
                    &&& final(self).phase_of() == Phase::Done
                    &&& final(self).step_done() == if old(self).step_done() + 1 < old(
                        self,
                    ).total_len() {
                        old(self).total_len() - 1
                    } else {
                        old(self).step_done()
                    }
                    &&& forall|k: int|
                        old(self).step_done() < k < old(self).total_len() ==> !#[trigger] observes(
                            old(self).cadence(),
                            old(self).sweep_len(),
                            k,
                        )
                },
            },
    {
        match self.phase {
            Phase::Ready => {
                self.phase = Phase::Running;
                assert(self.lattice@ == proposals(old(self).lattice@, Seq::empty(), self.acceptance));
                return Event::Observe(0);
            },
            Phase::Done => {
                assert(self.lattice@ == proposals(old(self).lattice@, Seq::empty(), self.acceptance));
                return Event::Finished(self.total);
            },
            Phase::Running => {},
        }
        let n = self.lattice.size();
        let ghost start = self.step;
        let ghost n0 = self.lattice@.len();
        let ghost mut moves: Seq<(int, int, u64)> = Seq::empty();
        while self.step + 1 < self.total
            invariant
                self.wf(),
                self.phase == Phase::Running,
                old(self).phase == Phase::Running,
                self.lattice@.len() == n0,
                old(self).lattice@.len() == n0,
                n == n0,
                self.sweep == old(self).sweep,
                self.total == old(self).total,
                self.verbosity == old(self).verbosity,
                self.acceptance == old(self).acceptance,
                self.step >= start,
                start == old(self).step,
                self.step == start ==> self.lattice@ == old(self).lattice@ && *rng == *old(rng),
                moves.len() == self.step - start,
                forall|k: int|
                    0 <= k < moves.len() ==> 0 <= #[trigger] moves[k].0 < n0 && 0 <= moves[k].1 < n0,
                self.lattice@ == proposals(old(self).lattice@, moves, self.acceptance),
                forall|k: int|
                    start < k <= self.step ==> !#[trigger] observes(
                        self.verbosity as int,
                        self.sweep as int,
                        k,
                    ),
            decreases self.total - self.step,
        {
            self.step = self.step + 1;
            let row = draw_index(rng, n);
            let col = draw_index(rng, n);
            let ghost before = self.lattice@;
            metropolis_step(&mut self.lattice, row, col, &self.acceptance, rng);
            proof {
                let d = choose|d: u64|
                    self.lattice@ == #[trigger] proposal(
                        before,
                        row as int,
                        col as int,
                        d,
                        self.acceptance,
                    );
                let next = moves.push((row as int, col as int, d));
                assert(next.drop_last() =~= moves);
                moves = next;
            }
            if observes_at(self.verbosity, self.sweep, self.step) {
                return Event::Observe(self.step);
            }
        }
        self.phase = Phase::Done;
        Event::Finished(self.total)
    }
}

} // verus!
