use project_evolution::creature::Creature;
use project_evolution::creature::CreatureBuilder;
use project_evolution::creature::CreatureColors;
use project_evolution::creature::Muscle;
use project_evolution::creature::Node;
use project_evolution::creature::Position;
use project_evolution::ids::IdSource;

fn node_by_id(creature: &Creature, id: u64) -> Node {
    for node in creature.nodes() {
        if node.id == id {
            return *node;
        }
    }
    panic!("no node with that id");
}

fn muscle_by_id(creature: &Creature, id: u64) -> Muscle {
    for muscle in creature.muscles() {
        if muscle.id == id {
            return *muscle;
        }
    }
    panic!("no muscle with that id");
}

#[test]
pub fn create_creature() {
    let mut ids = IdSource::new();
    let builder = CreatureBuilder::new(&mut ids);

    let node1 = Node::new(ids.fresh(), Position::new(1000, 2000), 3000);
    let node2 = Node::new(ids.fresh(), Position::new(2000, 1000), 3000);
    let node3 = Node::new(ids.fresh(), Position::new(5000, 5000), 3000);

    let id1 = node1.id;
    let id2 = node2.id;
    let id3 = node3.id;

    let muscle1 = Muscle::new(ids.fresh(), id1, id2);
    let muscle2 = Muscle::new(ids.fresh(), id2, id3);

    let id4 = muscle1.id;

    let c = builder
        .add_node(node1)
        .add_node(node2)
        .add_node(node3)
        .add_muscle(muscle1)
        .add_muscle(muscle2)
        .build();

    assert_eq!(node_by_id(&c, id1).position.x, 1000);
    assert_eq!(node_by_id(&c, id3).position.x, 5000);
    assert_eq!(muscle_by_id(&c, id4).to_id, node_by_id(&c, id2).id);
}

#[test]
pub fn distance_to() {
    let pos1 = Position::new(5000, 3000);
    let pos2 = Position::new(0, 3000);
    let pos3 = Position::new(5000, 0);
    let pos4 = Position::new(3000, 5000);

    assert_eq!(pos1.distance_to(&pos2), 5000);
    assert_eq!(pos1.distance_to(&pos3), 3000);
    assert_eq!(pos1.distance_to(&pos4), 2828);
}

#[test]
fn mutation_preserves_topology() {
    let mut ids = IdSource::new();
    let parent = CreatureBuilder::random(&mut ids).build();

    let child = CreatureBuilder::mutate(&parent, &mut ids).build();

    assert_eq!(child.nodes().len(), parent.nodes().len());
    assert_eq!(child.muscles().len(), parent.muscles().len());
    for i in 0..child.nodes().len() {
        assert_eq!(child.nodes()[i].position, parent.nodes()[i].position);
        assert_eq!(child.nodes()[i].size, parent.nodes()[i].size);
    }
    for j in 0..child.muscles().len() {
        let pf = parent.nodes().iter().position(|n| n.id == parent.muscles()[j].from_id);
        let pt = parent.nodes().iter().position(|n| n.id == parent.muscles()[j].to_id);
        let cf = child.nodes().iter().position(|n| n.id == child.muscles()[j].from_id);
        let ct = child.nodes().iter().position(|n| n.id == child.muscles()[j].to_id);
        assert_eq!(pf, cf);
        assert_eq!(pt, ct);
    }
    // Identities are disjoint between parent and child.
    assert_ne!(parent.id(), child.id());
    for parent_node in parent.nodes() {
        for child_node in child.nodes() {
            assert_ne!(parent_node.id, child_node.id);
        }
    }
    for parent_muscle in parent.muscles() {
        for child_muscle in child.muscles() {
            assert_ne!(parent_muscle.id, child_muscle.id);
        }
    }
}

#[test]
fn random_generation_respects_bounds() {
    let mut ids = IdSource::new();
    let mut pairs: u64 = 0;
    let mut connected: u64 = 0;
    let mut total_nodes: u64 = 0;
    for _ in 0..1000 {
        let builder = CreatureBuilder::random(&mut ids);
        let c = builder.build();
        let n = c.nodes().len() as u64;
        assert!(n >= 3);
        total_nodes += n;
        for node in c.nodes() {
            assert!(-100_000 <= node.position.x && node.position.x <= 100_000);
            assert!(-100_000 <= node.position.y && node.position.y <= 100_000);
            assert!(10_000 <= node.size && node.size <= 20_000);
        }
        pairs += n * (n - 1) / 2;
        connected += c.muscles().len() as u64;
    }
    // The empirical pair-connection rate is near the configured chance of
    // 750 per mille, and the mean node count near 3 + 1/3.
    let rate_mille = connected * 1000 / pairs;
    assert!(700 <= rate_mille && rate_mille <= 800, "rate {}", rate_mille);
    assert!(3000 < total_nodes && total_nodes < 4000, "nodes {}", total_nodes);
}

#[test]
fn colors_from_hue_are_derived() {
    let colors = CreatureColors::from_hue(0);
    assert_eq!(colors.hue(), 0);
    let node = colors.node();
    assert_eq!((node.r, node.g, node.b), (255, 63, 63));
    let extended = colors.muscle_extended();
    assert_eq!((extended.r, extended.g, extended.b), (191, 47, 47));
    let contracted = colors.muscle_contracted();
    assert_eq!((contracted.r, contracted.g, contracted.b), (127, 31, 31));
    let score_text = colors.score_text();
    assert_eq!((score_text.r, score_text.g, score_text.b), (242, 60, 60));
}

#[test]
fn color_mutation_wraps_hue() {
    let mut colors = CreatureColors::from_hue(5);
    for _ in 0..200 {
        let next = CreatureColors::mutate(&colors);
        let old_hue = colors.hue() as i64;
        let new_hue = next.hue() as i64;
        let delta = (new_hue - old_hue + 360) % 360;
        assert!(delta <= 10 || delta >= 350, "delta {}", delta);
        assert!(new_hue < 360);
        colors = next;
    }
}

#[test]
fn random_colors_vary() {
    let first = CreatureColors::new().hue();
    let mut saw_other = false;
    for _ in 0..100 {
        let hue = CreatureColors::new().hue();
        assert!(hue <= 350);
        if hue != first {
            saw_other = true;
        }
    }
    assert!(saw_other);
}

#[test]
fn translate_shifts_every_node() {
    let mut ids = IdSource::new();
    let builder = CreatureBuilder::new(&mut ids);
    let n1 = Node::new(ids.fresh(), Position::new(1000, 2000), 3000);
    let n2 = Node::new(ids.fresh(), Position::new(-4000, 500), 3000);
    let c = builder.add_node(n1).add_node(n2).translate(100, -200).build();
    assert_eq!(c.nodes()[0].position, Position::new(1100, 1800));
    assert_eq!(c.nodes()[1].position, Position::new(-3900, 300));
}

#[test]
fn translate_bottom_center_lands_on_target() {
    let mut ids = IdSource::new();
    let builder = CreatureBuilder::new(&mut ids);
    // Two nodes: x center is 3000; the lowest extent is the deeper node's
    // y plus half its size (y grows downward).
    let n1 = Node::new(ids.fresh(), Position::new(1000, 1000), 2000);
    let n2 = Node::new(ids.fresh(), Position::new(5000, 4000), 2000);
    let c = builder
        .add_node(n1)
        .add_node(n2)
        .translate_bottom_center_to(&Position::new(10_000, 20_000))
        .build();
    // dx = 10000 - 3000 = 7000; lowest = 4000 + 1000 = 5000; dy = 15000.
    assert_eq!(c.nodes()[0].position, Position::new(8000, 16_000));
    assert_eq!(c.nodes()[1].position, Position::new(12_000, 19_000));
}
