use ball_sim::mode::CollisionMode;
use ball_sim::pairs::collision_pairs;
use ball_sim::spawn::{next_spawn, random_color, spawn_spec, Rgb, SpawnSpec};

#[test]
fn mode_code_one_is_soft_bubble() {
    assert_eq!(CollisionMode::from_code(1), CollisionMode::SoftBubble);
}

#[test]
fn mode_other_codes_are_elastic_normal() {
    for code in [i8::MIN, -1, 0, 2, 3, i8::MAX] {
        assert_eq!(CollisionMode::from_code(code), CollisionMode::ElasticNormal);
    }
}

#[test]
fn no_pairs_for_empty_store() {
    assert!(collision_pairs(0).is_empty());
}

#[test]
fn no_pairs_for_single_particle() {
    assert!(collision_pairs(1).is_empty());
}

#[test]
fn pairs_of_four_in_nested_order() {
    assert_eq!(
        collision_pairs(4),
        vec![(0, 1), (0, 2), (0, 3), (1, 2), (1, 3), (2, 3)]
    );
}

#[test]
fn pairs_never_hold_one_particle_twice() {
    let n: usize = 12;
    let pairs = collision_pairs(n);
    assert_eq!(pairs.len(), n * (n - 1) / 2);
    for &(i, j) in &pairs {
        assert_ne!(i, j);
        assert!(i < j && j < n);
    }
    for i in 0..n {
        for j in (i + 1)..n {
            assert_eq!(pairs.iter().filter(|&&p| p == (i, j)).count(), 1);
            assert!(!pairs.contains(&(j, i)));
        }
    }
}

fn grey() -> Rgb {
    Rgb { r: 10, g: 20, b: 30 }
}

#[test]
fn first_spawns_follow_presets() {
    let expected = [
        (700, 200, 0, 0, 50),
        (100, 200, 7, 0, 15),
        (700, 300, -7, 0, 50),
        (100, 300, 5, 0, 15),
    ];
    for (count, &(x, y, x_vec, y_vec, radius)) in expected.iter().enumerate() {
        let s = spawn_spec(count, 33, 9, 4, grey());
        assert_eq!(s, SpawnSpec { x, y, x_vec, y_vec, radius, color: grey() });
    }
}

#[test]
fn later_spawns_use_draws_in_corner() {
    for count in [4usize, 5, 100] {
        let s = spawn_spec(count, 33, 9, 4, grey());
        assert_eq!(s, SpawnSpec { x: 50, y: 50, x_vec: 9, y_vec: 4, radius: 33, color: grey() });
    }
}

#[test]
fn next_spawn_presets_and_ranges() {
    for count in 0..4usize {
        let s = next_spawn(count);
        let again = spawn_spec(count, 1, 1, 1, s.color);
        assert_eq!((s.x, s.y, s.x_vec, s.y_vec, s.radius), (again.x, again.y, again.x_vec, again.y_vec, again.radius));
    }
    for _ in 0..200 {
        let s = next_spawn(7);
        assert_eq!((s.x, s.y), (50, 50));
        assert!((1..15).contains(&s.x_vec) && (1..15).contains(&s.y_vec));
        assert!((5..50).contains(&s.radius));
    }
}

#[test]
fn random_colors_stay_in_palette_and_vary() {
    let mut seen = Vec::new();
    for _ in 0..200 {
        let c = random_color();
        for ch in [c.r, c.g, c.b] {
            assert!((1..200).contains(&ch));
            seen.push(ch);
        }
    }
    assert!(seen.iter().any(|&v| v != seen[0]));
    assert!(seen.iter().any(|&v| v != 1) && seen.iter().any(|&v| v != 199));
}

#[test]
fn spawned_radii_vary() {
    let radii: Vec<i32> = (0..200).map(|_| next_spawn(10).radius).collect();
    assert!(radii.iter().any(|&r| r != radii[0]));
    assert!(radii.iter().all(|&r| r > 0));
}
