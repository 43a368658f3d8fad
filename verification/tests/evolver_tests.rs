use project_evolution::creature::Position;
use project_evolution::evolver::Evolver;
use project_evolution::evolver::EvolverState;
use project_evolution::evolver::StepOutcome;

#[test]
fn new_evolver_starts_simulating_a_full_generation() {
    let evolver = Evolver::new();
    assert_eq!(evolver.on_generation(), 1);
    assert_eq!(evolver.current_generation().len(), 100);
    assert!(matches!(
        evolver.state(),
        EvolverState::SimulatingGeneration { steps_left: 900 }
    ));
    assert!(evolver.generation_scores().is_empty());
    for simulation in evolver.current_generation() {
        assert_eq!(simulation.steps(), 0);
        assert!(simulation.creature().nodes().len() >= 3);
    }
}

#[test]
fn run_consumes_whole_steps_and_keeps_the_remainder() {
    let mut evolver = Evolver::new();
    // One step is 16_666_666 ns; steps are owed while strictly more than
    // one step's worth remains, so 100 ms yields 6 and leaves 4 ns.
    assert_eq!(evolver.run(100_000_000), 6);
    assert_eq!(evolver.run(0), 0);
    // 4 + 16_666_663 exceeds one step by one nanosecond.
    assert_eq!(evolver.run(16_666_663), 1);
}

#[test]
fn time_slicing_is_invariant() {
    // Feeding a duration in chunks yields the same total step count as
    // feeding it whole, however it is cut.
    let mut whole = Evolver::new();
    let total_ticks = whole.run(1_000_000_000);

    let mut chunked = Evolver::new();
    let mut ticks = 0;
    for part in [300_000_000u64, 1, 99_999_999, 450_000_000, 150_000_000] {
        ticks += chunked.run(part);
    }
    assert_eq!(ticks, total_ticks);

    let mut fine = Evolver::new();
    let mut fine_ticks = 0;
    for _ in 0..100 {
        fine_ticks += fine.run(10_000_000);
    }
    assert_eq!(fine_ticks, total_ticks);
}

#[test]
fn stepping_advances_every_simulation_in_lock_step() {
    let mut evolver = Evolver::new();
    assert!(evolver.has_id_budget());
    for expected in 1..=5u64 {
        let outcome = evolver.step();
        match outcome {
            StepOutcome::SteppedSimulations { motor_targets } => {
                assert_eq!(motor_targets.len(), 100);
                for (k, simulation) in evolver.current_generation().iter().enumerate() {
                    assert_eq!(simulation.steps(), expected);
                    assert_eq!(
                        motor_targets[k].len(),
                        simulation.creature().muscles().len()
                    );
                }
            }
            _ => panic!("expected a simulating step"),
        }
    }
    assert!(matches!(
        evolver.state(),
        EvolverState::SimulatingGeneration { steps_left: 895 }
    ));
}

#[test]
fn selection_breeds_the_top_scorers() {
    let mut evolver = Evolver::new();

    // Drive the state machine through one full generation: the
    // simulating phase takes 900 steps (the last one only transitions),
    // the evolving pause 300 (the last one spawns the next generation).
    let mut began_evolving = false;
    let mut spawned = false;
    for tick in 0..1200 {
        assert!(evolver.has_id_budget());
        let outcome = evolver.step();
        match outcome {
            StepOutcome::SteppedSimulations { .. } => assert!(tick < 899),
            StepOutcome::BeganEvolving => {
                assert_eq!(tick, 899);
                began_evolving = true;
            }
            StepOutcome::EvolveTick => assert!(900 <= tick && tick < 1199),
            StepOutcome::SpawnedGeneration => {
                assert_eq!(tick, 1199);
                spawned = true;
            }
        }
    }
    assert!(began_evolving && spawned);
    assert_eq!(evolver.on_generation(), 2);

    // The recorded scores of the finished generation are sorted
    // descending.
    assert_eq!(evolver.generation_scores().len(), 1);
    let recorded = &evolver.generation_scores()[0];
    assert_eq!(recorded.len(), 100);
    for w in recorded.windows(2) {
        assert!(w[0] >= w[1]);
    }

    // Ancestry: offspring come in OFFSPRING_PER_CREATURE blocks, each
    // block sharing its parent's topology, and every simulation starts
    // over at step zero.
    let generation = evolver.current_generation();
    assert_eq!(generation.len(), 100);
    for pair in generation.chunks(2) {
        assert_eq!(
            pair[0].creature().nodes().len(),
            pair[1].creature().nodes().len()
        );
        assert_eq!(
            pair[0].creature().muscles().len(),
            pair[1].creature().muscles().len()
        );
    }
    for simulation in generation {
        assert_eq!(simulation.steps(), 0);
    }
    assert!(matches!(
        evolver.state(),
        EvolverState::SimulatingGeneration { steps_left: 900 }
    ));
}

#[test]
fn reported_positions_feed_the_scores() {
    let mut evolver = Evolver::new();
    let node_count = evolver.current_generation()[7].creature().nodes().len();
    let mut positions = Vec::new();
    for i in 0..node_count {
        positions.push(Position::new(700_000 + i as i64, 400_000));
    }
    evolver.set_simulation_positions(7, positions);
    let moved = &evolver.current_generation()[7];
    // The rightmost body is 200_000 + node_count - 1 fixed-point units
    // past the spawn line; each 100 units are one score unit.
    assert_eq!(
        moved.get_score(),
        (200_000 + node_count as i64 - 1) / 100
    );
}
