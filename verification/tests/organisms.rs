use ecosystem_components::organism_type::OrganismType;
use ecosystem_components::organism_type::SpriteShape;

#[test]
fn it_works() {
    let result = 4;
    assert_eq!(result, 4);
}

#[test]
fn test_organism_types() {
    let all_types = OrganismType::all();
    assert_eq!(all_types.len(), 3);
    assert!(all_types.contains(&OrganismType::Blue));
    assert!(all_types.contains(&OrganismType::Red));
    assert!(all_types.contains(&OrganismType::Plant));
}

#[test]
fn test_sprite_stats() {
    let blue_stats = OrganismType::Blue.sprite_stats();
    assert_eq!(blue_stats.color, (200, 600, 1000));
    assert_eq!(blue_stats.size, 8000);
    assert_eq!(blue_stats.shape, SpriteShape::Circle);

    let red_stats = OrganismType::Red.sprite_stats();
    assert_eq!(red_stats.shape, SpriteShape::Triangle);
    assert!(red_stats.size > blue_stats.size); // Predators are bigger

    let plant_stats = OrganismType::Plant.sprite_stats();
    assert_eq!(plant_stats.shape, SpriteShape::Square);
}

#[test]
fn test_color_helpers() {
    assert_eq!(OrganismType::Blue.color(), (200, 600, 1000));
    assert_eq!(OrganismType::Red.size(), 12000);
    assert_eq!(OrganismType::Plant.shape(), SpriteShape::Square);
}

#[test]
fn test_sprite_stats_helpers() {
    let stats = OrganismType::Blue.sprite_stats();
    let color_vec = stats.color_vec3();
    assert_eq!(color_vec.x, 200);
    assert_eq!(color_vec.y, 600);
    assert_eq!(color_vec.z, 1000);

    let size_vec = stats.size_vec2();
    assert_eq!(size_vec.x, 8000);
    assert_eq!(size_vec.y, 8000);

    assert!(!stats.has_texture()); // No textures yet
}

#[test]
fn test_names() {
    assert_eq!(OrganismType::Blue.display_name(), "Blue Organism");
    assert_eq!(OrganismType::Red.display_name(), "Red Organism");
    assert_eq!(OrganismType::Plant.display_name(), "Plant");
    assert_eq!(OrganismType::Blue.short_name(), "Blue");
    assert_eq!(OrganismType::Red.short_name(), "Red");
    assert_eq!(OrganismType::Plant.short_name(), "Plant");
}

#[test]
fn test_organism_defaults() {
    assert_eq!(OrganismType::default(), OrganismType::Blue);
    assert_eq!(SpriteShape::default(), SpriteShape::Circle);
}
