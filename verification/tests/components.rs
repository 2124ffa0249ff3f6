use ecosystem_components::ai_inputs::EntityObservation;
use ecosystem_components::ai_inputs::ObservationData;
use ecosystem_components::ai_inputs::SelfState;
use ecosystem_components::ai_outputs::ActionCommand;
use ecosystem_components::ai_outputs::ActionType;
use ecosystem_components::constraints::Vision;
use ecosystem_components::markers::Alive;
use ecosystem_components::markers::Edible;
use ecosystem_components::markers::Newborn;
use ecosystem_components::markers::Organism;
use ecosystem_components::organism_type::OrganismType;
use ecosystem_components::physical::Collision;
use ecosystem_components::physical::Energy;
use ecosystem_components::physical::Health;
use ecosystem_components::physical::Position;
use ecosystem_components::tracking::ActivityType;
use ecosystem_components::tracking::CurrentActivity;
use ecosystem_components::vectors::Vec2Fx;

#[test]
fn test_health_overkill_scenario() {
    // Health of 100 units takes 150 units of damage: clamped at zero, dead.
    let mut health = Health::new(100_000);
    health.take_damage(150_000);
    assert_eq!(health.current(), 0);
    assert!(!health.is_alive());
}

#[test]
fn test_health_invariant_sequence() {
    let mut health = Health::new(80_000);
    let ops: [i64; 6] = [30_000, -10_000, 500_000, 0, 70_000, 90_000];
    for (i, amount) in ops.iter().enumerate() {
        if i % 2 == 0 {
            health.take_damage(*amount);
        } else {
            health.heal(*amount);
        }
        assert!(0 <= health.current() && health.current() <= health.max());
    }
    health.set_max(-5_000);
    assert!(0 <= health.current() && health.current() <= health.max());
    assert_eq!(health.max(), 0);
    health.set_max(40_000);
    health.set_current(999_000);
    assert!(0 <= health.current() && health.current() <= health.max());
    assert_eq!(health.current(), 40_000);
}

#[test]
fn test_health_heal_clamps() {
    let mut health = Health::new(100_000);
    health.take_damage(30_000);
    assert_eq!(health.current(), 70_000);
    assert!(!health.is_full());
    health.heal(50_000);
    assert_eq!(health.current(), 100_000);
    assert!(health.is_full());
    health.heal(-10_000); // no-op
    assert_eq!(health.current(), 100_000);
    health.take_damage(-10_000); // no-op
    assert_eq!(health.current(), 100_000);
}

#[test]
fn test_health_set_max_lowers_current() {
    let mut health = Health::new(100_000);
    health.set_max(50_000);
    assert_eq!(health.max(), 50_000);
    assert_eq!(health.current(), 50_000);
}

#[test]
fn test_health_ratio() {
    // Zero maximum gives exactly zero.
    let zeroed = Health::new(0);
    assert_eq!(zeroed.ratio(), 0);
    let negative = Health::new(-10_000);
    assert_eq!(negative.ratio(), 0);

    let mut health = Health::new(100_000);
    assert_eq!(health.ratio(), 1000);
    health.take_damage(75_000);
    assert_eq!(health.ratio(), 250);
    assert!(0 <= health.ratio() && health.ratio() <= 1000);
}

#[test]
fn test_health_is_low() {
    let mut health = Health::new(100_000);
    health.take_damage(75_000); // ratio 250
    assert!(health.is_low(500));
    assert!(!health.is_low(200));
    // Thresholds are clamped into [0, 1000].
    assert!(health.is_low(2_000));
    assert!(!health.is_low(-5));
}

#[test]
fn test_energy_consume() {
    let mut energy = Energy::new(50_000, 10_000, 5_000);
    // More than available: fails, nothing changes.
    assert!(!energy.consume(60_000));
    assert_eq!(energy.current(), 50_000);
    // Covered: succeeds, subtracts exactly the amount.
    assert!(energy.consume(20_000));
    assert_eq!(energy.current(), 30_000);
    // Exact balance: succeeds and empties the store.
    assert!(energy.consume(30_000));
    assert_eq!(energy.current(), 0);
    assert!(energy.is_depleted());
}

#[test]
fn test_energy_movement_scenario() {
    // 50 units of energy at 10 per move: five moves drain it to zero, the
    // next refusal leaves it unchanged.
    let mut energy = Energy::new(50_000, 10_000, 5_000);
    for _ in 0..5 {
        assert!(energy.can_move());
        assert!(energy.consume_movement());
    }
    assert_eq!(energy.current(), 0);
    assert!(!energy.can_move());
    assert!(!energy.consume_movement());
    assert_eq!(energy.current(), 0);
}

#[test]
fn test_energy_regenerate() {
    let mut energy = Energy::new(100_000, 10_000, 5_000);
    energy.set_current(20_000);
    // Non-positive durations are no-ops.
    energy.regenerate(0);
    assert_eq!(energy.current(), 20_000);
    energy.regenerate(-3_000);
    assert_eq!(energy.current(), 20_000);
    // Two seconds at five units per second.
    energy.regenerate(2_000);
    assert_eq!(energy.current(), 30_000);
    // A long rest clamps at the maximum.
    energy.regenerate(1_000_000);
    assert_eq!(energy.current(), 100_000);
    assert!(energy.is_full());
}

#[test]
fn test_energy_ratio() {
    let zeroed = Energy::new(0, 0, 0);
    assert_eq!(zeroed.ratio(), 0);
    let mut energy = Energy::new(80_000, 10_000, 5_000);
    energy.set_current(40_000);
    assert_eq!(energy.ratio(), 500);
    assert!(energy.is_low(501));
    assert!(!energy.is_low(500));
}

#[test]
fn test_energy_setters() {
    let mut energy = Energy::new(50_000, -10_000, -5_000);
    // Negative cost and rate are clamped at construction.
    assert_eq!(energy.movement_cost(), 0);
    assert_eq!(energy.regen_rate(), 0);
    energy.set_movement_cost(7_000);
    assert_eq!(energy.movement_cost(), 7_000);
    energy.set_regen_rate(-1);
    assert_eq!(energy.regen_rate(), 0);
    energy.set_max(30_000);
    assert_eq!(energy.max(), 30_000);
    assert_eq!(energy.current(), 30_000);
    assert!(energy.can_afford(30_000));
    assert!(!energy.can_afford(30_001));
    energy.add_energy(10_000);
    assert_eq!(energy.current(), 30_000);
    energy.set_current(-4);
    assert_eq!(energy.current(), 0);
}

#[test]
fn test_collision_symmetry() {
    let a = Collision::new(5_000);
    let b = Collision::new(3_000);
    let distances: [i64; 4] = [0, 7_999, 8_000, 8_001];
    for d in distances.iter() {
        assert_eq!(a.is_colliding_with(&b, *d), b.is_colliding_with(&a, *d));
    }
    // Exact touching counts as colliding.
    assert!(a.is_colliding_with(&b, 8_000));
    assert!(!a.is_colliding_with(&b, 8_001));
}

#[test]
fn test_collision_geometry() {
    let mut a = Collision::new(5_000);
    let b = Collision::new(3_000);
    assert_eq!(a.min_distance_to(&b), 8_000);
    assert_eq!(a.diameter(), 10_000);
    assert_eq!(a.overlap_amount(&b, 6_000), 2_000);
    assert_eq!(a.overlap_amount(&b, 8_000), 0);
    assert_eq!(a.overlap_amount(&b, 9_000), 0);
    a.set_radius(-2_000);
    assert_eq!(a.radius(), 0);
    let negative = Collision::new(-1);
    assert_eq!(negative.radius(), 0);
}

#[test]
fn test_position_distance() {
    let origin = Position::zero();
    let p = Position::new(3_000, 4_000);
    assert_eq!(origin.distance_to(&p), 5_000);
    assert_eq!(p.distance_to(&origin), 5_000);
    // A non-square distance is rounded down: sqrt(2) is about 1.414.
    let q = Position::new(1_000, 1_000);
    assert_eq!(origin.distance_to(&q), 1_414);
    assert_eq!(origin.distance_to(&origin), 0);
}

#[test]
fn test_position_direction() {
    let origin = Position::zero();
    let east = Position::new(2_000, 0);
    let dir = origin.direction_to(&east);
    assert_eq!((dir.x, dir.y), (1_000, 0));
    let diag = origin.direction_to(&Position::new(-3_000, 4_000));
    assert_eq!((diag.x, diag.y), (-600, 800));
    let same = origin.direction_to(&origin);
    assert_eq!((same.x, same.y), (0, 0));
}

#[test]
fn test_position_clamp_and_vec() {
    let mut p = Position::new(12_000, -7_000);
    p.clamp_to_bounds(-5_000, 5_000, -5_000, 5_000);
    assert_eq!((p.x, p.y), (5_000, -5_000));
    let v = p.to_vec2();
    assert_eq!((v.x, v.y), (5_000, -5_000));
    let back = Position::from_vec2(v);
    assert_eq!((back.x, back.y), (5_000, -5_000));
}

#[test]
fn test_entity_observation_direction() {
    // An exactly-zero relative position yields the zero vector.
    let on_top = EntityObservation::new(OrganismType::Plant, Vec2Fx::zero());
    let dir = on_top.direction();
    assert_eq!((dir.x, dir.y), (0, 0));
    assert_eq!(on_top.distance(), 0);

    // Otherwise the direction is a unit vector on the fixed-point grid.
    let seen = EntityObservation::new(OrganismType::Red, Vec2Fx::new(0, 5_000));
    let dir = seen.direction();
    assert_eq!((dir.x, dir.y), (0, 1_000));
    assert_eq!(seen.distance(), 5_000);

    let diag = EntityObservation::new(OrganismType::Blue, Vec2Fx::new(-3_000, 4_000));
    let dir = diag.direction();
    assert_eq!((dir.x, dir.y), (-600, 800));
    assert_eq!(diag.distance(), 5_000);

    // The direction of a non-zero vector is a unit vector on the
    // fixed-point grid: its squared length stays near SCALE squared.
    let slanted = EntityObservation::new(OrganismType::Plant, Vec2Fx::new(1_000, 1_000));
    let dir = slanted.direction();
    assert_eq!((dir.x, dir.y), (707, 707));
    let n2 = dir.x * dir.x + dir.y * dir.y;
    assert!(250_000 <= n2 && n2 <= 2_000_000);
}

#[test]
fn test_self_state_clamps_ratios() {
    let state = SelfState::new(-5, 2_000, Vec2Fx::new(1_000, 2_000));
    assert_eq!(state.health_ratio, 0);
    assert_eq!(state.energy_ratio, 1_000);
    assert_eq!((state.current_position.x, state.current_position.y), (1_000, 2_000));
    let mid = SelfState::new(400, 700, Vec2Fx::zero());
    assert_eq!(mid.health_ratio, 400);
    assert_eq!(mid.energy_ratio, 700);
}

#[test]
fn test_observation_data_order() {
    let state = SelfState::new(1_000, 1_000, Vec2Fx::zero());
    let mut data = ObservationData::new(state);
    assert!(data.visible_entities.is_empty());

    let first = EntityObservation::new(OrganismType::Red, Vec2Fx::new(1_000, 0));
    let second = EntityObservation::new(OrganismType::Plant, Vec2Fx::new(0, 2_000));
    let duplicate = EntityObservation::new(OrganismType::Red, Vec2Fx::new(1_000, 0));
    data.add_observation(first);
    data.add_observation(second);
    data.add_observation(duplicate);
    // Insertion order is kept and duplicates are not removed.
    assert_eq!(data.visible_entities.len(), 3);
    assert_eq!(data.visible_entities[0].organism_type, OrganismType::Red);
    assert_eq!(data.visible_entities[1].organism_type, OrganismType::Plant);
    assert_eq!(data.visible_entities[2], data.visible_entities[0]);

    data.clear_observations();
    assert!(data.visible_entities.is_empty());
    assert_eq!(data.self_state, state);
}

#[test]
fn test_action_command() {
    let rest = ActionCommand::rest();
    assert_eq!(rest.action_type, ActionType::Rest);
    let mv = ActionCommand::move_to(Vec2Fx::new(1_000, 0));
    assert_eq!(mv.action_type, ActionType::Move(Vec2Fx::new(1_000, 0)));
    let built = ActionCommand::new(ActionType::Rest);
    assert_eq!(built, rest);
}

#[test]
fn test_resting_defaults_align() {
    // A fresh entity presents as resting: the default activity, the default
    // command and the default action all agree.
    assert_eq!(CurrentActivity::default(), CurrentActivity::new(ActivityType::Resting));
    assert_eq!(ActivityType::default(), ActivityType::Resting);
    assert_eq!(ActionCommand::default(), ActionCommand::rest());
    assert_eq!(ActionType::default(), ActionType::Rest);
}

#[test]
fn test_activity_tracking() {
    let mut activity = CurrentActivity::new(ActivityType::Resting);
    activity.set_activity(ActivityType::Moving);
    assert_eq!(activity.activity, ActivityType::Moving);
}

#[test]
fn test_vision() {
    let vision = Vision::new(-3_000);
    assert_eq!(vision.range, 0);
    let mut standard = Vision::default();
    assert_eq!(standard.range, 100_000);
    standard.set_range(-1);
    assert_eq!(standard.range, 0);
    standard.set_range(55_000);
    assert_eq!(standard.range, 55_000);
}

#[test]
fn test_markers_exist() {
    assert_eq!(Organism, Organism);
    assert_eq!(Edible, Edible);
    assert_eq!(Alive, Alive);
    assert_eq!(Newborn, Newborn);
}
