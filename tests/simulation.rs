use ising::{
    metropolis_step, observes_at, uphill_accepted, Acceptance, Event, Lattice, Simulation,
    SimulationError, Spin,
};
use rand::rngs::StdRng;
use rand::{RngCore, SeedableRng};

/// The fixed-point acceptance threshold for an energy change `delta` at temperature `t`.
fn threshold(delta: f64, t: f64) -> u64 {
    ((-delta / t).exp() * 18446744073709551616.0) as u64
}

fn acceptance_at(t: f64) -> Acceptance {
    Acceptance::new(threshold(4.0, t), threshold(8.0, t))
}

fn run_events(sim: &mut Simulation, rng: &mut StdRng) -> Vec<Event> {
    let mut events = Vec::new();
    loop {
        let e = sim.advance(rng);
        events.push(e);
        if let Event::Finished(_) = e {
            return events;
        }
    }
}

#[test]
fn downhill_move_flips_without_drawing() {
    // (0, 0) is Up with all neighbours Down: flipping lowers the energy.
    let mut lattice = Lattice::uniform(3, Spin::Down).unwrap();
    lattice.flip(0, 0);
    assert_eq!(lattice.local_energy_delta(0, 0), -8);
    let mut rng = StdRng::seed_from_u64(42);
    let mut twin = rng.clone();
    let flipped = metropolis_step(&mut lattice, 0, 0, &Acceptance::frozen(), &mut rng);
    assert!(flipped);
    assert_eq!(lattice.get(0, 0), Spin::Down);
    assert_eq!(rng.next_u64(), twin.next_u64());
}

#[test]
fn neutral_move_flips_without_drawing() {
    let mut lattice = Lattice::uniform(2, Spin::Up).unwrap();
    lattice.flip(0, 1);
    lattice.flip(1, 0);
    // On a 2 x 2 torus (1, 0) is both top and bottom of (0, 0), and (0, 1) both left and right.
    let delta = lattice.local_energy_delta(0, 0);
    assert_eq!(delta, -8);
    let mut g = Lattice::uniform(4, Spin::Up).unwrap();
    g.flip(0, 1);
    g.flip(1, 0);
    assert_eq!(g.local_energy_delta(0, 0), 0);
    let mut rng = StdRng::seed_from_u64(9);
    let mut twin = rng.clone();
    assert!(metropolis_step(&mut g, 0, 0, &Acceptance::frozen(), &mut rng));
    assert_eq!(g.get(0, 0), Spin::Down);
    assert_eq!(rng.next_u64(), twin.next_u64());
}

#[test]
fn uphill_move_draws_once() {
    let mut lattice = Lattice::uniform(2, Spin::Up).unwrap();
    let mut rng = StdRng::seed_from_u64(5);
    let mut twin = rng.clone();
    let flipped = metropolis_step(&mut lattice, 0, 0, &Acceptance::frozen(), &mut rng);
    assert!(!flipped);
    assert_eq!(lattice.up_count(), 4);
    twin.next_u64();
    assert_eq!(rng.next_u64(), twin.next_u64());
}

#[test]
fn uphill_acceptance_compares_draw_with_threshold() {
    let a = Acceptance::new(100, 10);
    assert!(uphill_accepted(4, 99, &a));
    assert!(!uphill_accepted(4, 100, &a));
    assert!(uphill_accepted(8, 9, &a));
    assert!(!uphill_accepted(8, 10, &a));
    assert_eq!(a.threshold_for(4), 100);
    assert_eq!(a.threshold_for(8), 10);
}

#[test]
fn two_by_two_all_up_scenario() {
    let lattice = Lattice::uniform(2, Spin::Up).unwrap();
    let delta = lattice.local_energy_delta(0, 0);
    assert_eq!(delta, 8);
    let acceptance = acceptance_at(1.0);
    let draw = (0.99 * 18446744073709551616.0) as u64;
    assert!(!uphill_accepted(delta, draw, &acceptance));
    let tiny = 1u64 << 40;
    assert!(uphill_accepted(delta, tiny, &acceptance));
    assert_eq!(lattice.up_count(), 4);
}

#[test]
fn zero_iterations_leave_grid_unchanged() {
    let mut rng = StdRng::seed_from_u64(17);
    let lattice = Lattice::initialize(10, &mut rng).unwrap();
    let before = lattice.snapshot().clone();
    let pixels = lattice.grayscale_pixels();
    let mut sim = Simulation::new(lattice, 0, 2, acceptance_at(2.5)).unwrap();
    let mut twin = rng.clone();
    let events = run_events(&mut sim, &mut rng);
    assert_eq!(events, vec![Event::Observe(0), Event::Finished(0)]);
    assert_eq!(sim.step(), 0);
    assert_eq!(sim.lattice().snapshot(), &before);
    assert_eq!(sim.lattice().grayscale_pixels(), pixels);
    assert_eq!(rng.next_u64(), twin.next_u64());
}

#[test]
fn sweep_cadence_observes_each_sweep() {
    let mut rng = StdRng::seed_from_u64(23);
    let lattice = Lattice::initialize(4, &mut rng).unwrap();
    let mut sim = Simulation::new(lattice, 2, 1, acceptance_at(2.5)).unwrap();
    let events = run_events(&mut sim, &mut rng);
    assert_eq!(
        events,
        vec![Event::Observe(0), Event::Observe(16), Event::Finished(32)]
    );
    assert_eq!(sim.step(), 31);
    assert_eq!(sim.total_steps(), 32);
}

#[test]
fn quiet_cadence_observes_start_and_end() {
    let mut rng = StdRng::seed_from_u64(29);
    let lattice = Lattice::initialize(4, &mut rng).unwrap();
    let mut sim = Simulation::new(lattice, 3, 0, acceptance_at(2.5)).unwrap();
    let events = run_events(&mut sim, &mut rng);
    assert_eq!(events, vec![Event::Observe(0), Event::Finished(48)]);
    assert_eq!(sim.advance(&mut rng), Event::Finished(48));
}

#[test]
fn full_cadence_observes_every_step() {
    let mut rng = StdRng::seed_from_u64(31);
    let lattice = Lattice::initialize(3, &mut rng).unwrap();
    let mut sim = Simulation::new(lattice, 2, 2, acceptance_at(2.5)).unwrap();
    let events = run_events(&mut sim, &mut rng);
    let mut expected: Vec<Event> = (0..18).map(Event::Observe).collect();
    expected.push(Event::Finished(18));
    assert_eq!(events, expected);
}

#[test]
fn frozen_run_never_raises_energy() {
    let mut rng = StdRng::seed_from_u64(37);
    let lattice = Lattice::uniform(5, Spin::Up).unwrap();
    let mut sim = Simulation::new(lattice, 20, 0, Acceptance::frozen()).unwrap();
    run_events(&mut sim, &mut rng);
    assert_eq!(sim.lattice().up_count(), 25);
}

#[test]
fn hot_run_moves_spins() {
    let mut rng = StdRng::seed_from_u64(41);
    let lattice = Lattice::uniform(8, Spin::Up).unwrap();
    let mut sim = Simulation::new(lattice, 20, 0, Acceptance::new(u64::MAX, u64::MAX)).unwrap();
    run_events(&mut sim, &mut rng);
    let ups = sim.lattice().up_count();
    assert!(ups < 64);
}

#[test]
fn step_total_overflow_is_rejected() {
    let lattice = Lattice::uniform(2, Spin::Up).unwrap();
    assert_eq!(
        Simulation::new(lattice, usize::MAX, 0, Acceptance::frozen()).err(),
        Some(SimulationError::TooManySteps)
    );
}

#[test]
fn cadence_rule() {
    assert!(!observes_at(0, 16, 16));
    assert!(observes_at(1, 16, 16));
    assert!(!observes_at(1, 16, 15));
    assert!(observes_at(2, 16, 15));
    assert!(observes_at(3, 16, 1));
}
