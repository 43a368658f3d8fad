use project_evolution::creature::Creature;
use project_evolution::creature::CreatureBuilder;
use project_evolution::creature::Muscle;
use project_evolution::creature::Node;
use project_evolution::creature::Position;
use project_evolution::ids::IdSource;
use project_evolution::simulation::Simulation;

fn three_node_creature(ids: &mut IdSource) -> Creature {
    let builder = CreatureBuilder::new(ids);
    let node1 = Node::new(ids.fresh(), Position::new(1000, 2000), 3000);
    let node2 = Node::new(ids.fresh(), Position::new(2000, 1000), 3000);
    let node3 = Node::new(ids.fresh(), Position::new(5000, 5000), 3000);
    let muscle1 = Muscle::new(ids.fresh(), node1.id, node2.id);
    let muscle2 = Muscle::new(ids.fresh(), node2.id, node3.id);
    builder
        .add_node(node1)
        .add_node(node2)
        .add_node(node3)
        .add_muscle(muscle1)
        .add_muscle(muscle2)
        .build()
}

#[test]
fn bounds_and_natural_lengths_after_construction() {
    let mut ids = IdSource::new();
    let creature = three_node_creature(&mut ids);

    // Natural lengths come from the endpoint distances: sqrt(2) and 5.0
    // world units, in fixed point.
    assert_eq!(creature.movement_parameters()[0].muscle_length(), 1414);
    assert_eq!(creature.movement_parameters()[1].muscle_length(), 5000);

    let simulation = Simulation::new(creature);
    let (top_left, bottom_right) = simulation.get_bounds();
    assert_eq!(top_left, Position::new(1000, 1000));
    assert_eq!(bottom_right, Position::new(5000, 5000));

    let text = simulation.get_text_position();
    assert_eq!(text, Position::new(3000, 1000));
}

#[test]
fn node_positions_follow_the_backend() {
    let mut ids = IdSource::new();
    let creature = three_node_creature(&mut ids);
    let id1 = creature.nodes()[0].id;
    let mut simulation = Simulation::new(creature);

    assert_eq!(simulation.get_position_of_node(id1), Position::new(1000, 2000));

    simulation.set_node_positions(vec![
        Position::new(1500, 2500),
        Position::new(2000, 1000),
        Position::new(5000, 5000),
    ]);
    assert_eq!(simulation.get_position_of_node(id1), Position::new(1500, 2500));
}

#[test]
fn score_measures_rightmost_extent() {
    assert_eq!(Simulation::x_to_score(500_000), 0);
    assert_eq!(Simulation::x_to_score(600_000), 1000);
    assert_eq!(Simulation::x_to_score(400_000), -1000);
    assert_eq!(Simulation::score_to_x(1000), 600_000);
    assert_eq!(Simulation::score_to_x(-1000), 400_000);

    let mut ids = IdSource::new();
    let creature = three_node_creature(&mut ids);
    let mut simulation = Simulation::new(creature);
    simulation.set_node_positions(vec![
        Position::new(500_000, 0),
        Position::new(610_000, 0),
        Position::new(430_000, 0),
    ]);
    assert_eq!(simulation.get_score(), 1100);
}

#[test]
fn stepping_is_deterministic() {
    // Two simulations built from identical creature descriptors and
    // stepped the same number of ticks command identical motor targets
    // and report identical state.
    let mut ids = IdSource::new();
    let builder = CreatureBuilder::new(&mut ids);
    let node1 = Node::new(ids.fresh(), Position::new(0, 0), 3000);
    let node2 = Node::new(ids.fresh(), Position::new(3000, 4000), 3000);
    let muscle = Muscle::new(ids.fresh(), node1.id, node2.id);
    let creature_a = builder.add_node(node1).add_node(node2).add_muscle(muscle).build();

    let mut ids_b = IdSource::new();
    let builder_b = CreatureBuilder::new(&mut ids_b);
    let node1_b = Node::new(ids_b.fresh(), Position::new(0, 0), 3000);
    let node2_b = Node::new(ids_b.fresh(), Position::new(3000, 4000), 3000);
    let muscle_b = Muscle::new(ids_b.fresh(), node1_b.id, node2_b.id);
    let schedules = creature_a.movement_parameters().clone();
    let creature_b = builder_b
        .add_node(node1_b)
        .add_node(node2_b)
        .add_muscle(muscle_b)
        .add_movement_parameters(schedules)
        .build();

    let mut sim_a = Simulation::new(creature_a);
    let mut sim_b = Simulation::new(creature_b);
    for _ in 0..500 {
        let targets_a = sim_a.step();
        let targets_b = sim_b.step();
        assert_eq!(targets_a, targets_b);
    }
    assert_eq!(sim_a.steps(), 500);
    assert_eq!(sim_b.steps(), 500);
}

#[test]
fn muscle_queries_follow_the_schedule() {
    let mut ids = IdSource::new();
    let creature = three_node_creature(&mut ids);
    let muscle_id = creature.muscles()[0].id;
    let ext = creature.movement_parameters()[0].extension_period();
    let mut simulation = Simulation::new(creature);

    assert!(simulation.is_muscle_extending(muscle_id));
    assert_eq!(simulation.get_extension_delta_of_muscle(muscle_id), 500);

    for _ in 0..ext {
        simulation.step();
    }
    assert!(!simulation.is_muscle_extending(muscle_id));
    assert_eq!(simulation.get_extension_delta_of_muscle(muscle_id), 1000);
}
