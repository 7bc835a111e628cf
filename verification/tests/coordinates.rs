use z_buffer_game::direction::Direction;
use z_buffer_game::location::Location;
use z_buffer_game::rectangle::Rectangle;

#[test]
fn move_by_adds_differences_to_the_coordinates() {
    assert_eq!(Location::new(10, 0), Location::new(5, 0).move_by(5, 0));
    assert_eq!(Location::new(13, 23), Location::new(3, 3).move_by(10, 20));
    assert_eq!(Location::new(4, 5), Location::new(-4, -2).move_by(8, 7));
    assert_eq!(Location::new(35, 53), Location::new(40, 50).move_by(-5, 3));
}

#[test]
fn move_towards_adds_direction_vector_to_current_location() {
    assert_eq!(
        Location::new(0, -1),
        Location::origin().move_towards(Direction::North)
    );
    assert_eq!(
        Location::new(1, 3),
        Location::new(1, 2).move_towards(Direction::South)
    );
    assert_eq!(
        Location::new(9, 5),
        Location::new(10, 5).move_towards(Direction::West)
    );
    assert_eq!(
        Location::new(1, -2),
        Location::new(0, -2).move_towards(Direction::East)
    );
}

#[test]
fn new_creates_a_canonical_rectangle_with_min_and_max_coordinates() {
    let r1 = Rectangle::new(Location::new(-2, 3), Location::new(4, -3));
    assert_eq!(r1.min_x, -2);
    assert_eq!(r1.min_y, -3);
    assert_eq!(r1.max_x, 4);
    assert_eq!(r1.max_y, 3);

    let r2 = Rectangle::new(Location::new(-5, -7), Location::new(4, 8));
    assert_eq!(r2.min_x, -5);
    assert_eq!(r2.min_y, -7);
    assert_eq!(r2.max_x, 4);
    assert_eq!(r2.max_y, 8);
}

#[test]
fn new_is_canonical_in_either_corner_order() {
    let corners = [
        (Location::new(-2, 3), Location::new(4, -3)),
        (Location::new(10, 10), Location::new(-10, -10)),
        (Location::new(0, 0), Location::new(0, 0)),
    ];
    for (a, b) in corners {
        assert_eq!(Rectangle::new(a, b), Rectangle::new(b, a));
    }
}

#[test]
fn area_is_width_times_height() {
    assert_eq!(
        25,
        Rectangle::new(Location::new(0, 0), Location::new(4, 4)).area()
    );
    assert_eq!(
        49,
        Rectangle::new(Location::new(3, -3), Location::new(-3, 3)).area()
    );
    assert_eq!(
        60002,
        Rectangle::new(Location::new(-10000, 0), Location::new(20000, 1)).area()
    );
}

#[test]
fn iteration_generates_each_location_within_the_rectangle() {
    assert_eq!(
        vec![Location::new(10, 10)],
        Rectangle::new(Location::new(10, 10), Location::new(10, 10)).locations()
    );

    assert_eq!(
        vec![
            Location::new(1, 1),
            Location::new(2, 1),
            Location::new(3, 1),
            Location::new(1, 2),
            Location::new(2, 2),
            Location::new(3, 2)
        ],
        Rectangle::new(Location::new(1, 2), Location::new(3, 1)).locations()
    );
}

#[test]
fn iteration_is_restartable_and_matches_locations() {
    let rect = Rectangle::new(Location::new(-1, -2), Location::new(2, 1));
    let expected = rect.locations();

    for _round in 0..2 {
        let mut seen = Vec::new();
        let mut it = rect.iter();
        while let Some(loc) = it.next() {
            seen.push(loc);
        }
        assert_eq!(expected, seen);
    }

    assert_eq!(
        u64::from(rect.width()) * u64::from(rect.height()),
        expected.len() as u64
    );
    for loc in &expected {
        assert!(rect.contains(*loc));
    }
    for i in 0..expected.len() {
        for j in (i + 1)..expected.len() {
            assert_ne!(expected[i], expected[j]);
        }
    }
}

#[test]
fn centering_around_with_odd_dimensions_place_the_center_in_the_middle() {
    assert_eq!(
        Rectangle::new(Location::new(-1, -1), Location::new(1, 1)),
        Rectangle::centered_around(Location::origin(), 3, 3)
    );
    assert_eq!(
        Location::origin(),
        Rectangle::centered_around(Location::origin(), 11, 11).center()
    );
    assert_eq!(
        Location::origin(),
        Rectangle::centered_around(Location::origin(), 7, 4).center()
    );
    assert_eq!(
        Location::origin(),
        Rectangle::centered_around(Location::origin(), 4, 5).center()
    );
}

#[test]
fn centering_around_with_even_dimensions_place_the_center_on_top_left_coordinate() {
    assert_eq!(
        Rectangle::new(Location::new(-2, -2), Location::new(1, 1)),
        Rectangle::centered_around(Location::origin(), 4, 4)
    );
    assert_eq!(
        Location::origin(),
        Rectangle::centered_around(Location::origin(), 4, 4).center()
    );
    assert_eq!(
        Rectangle::new(Location::new(-2, -3), Location::new(3, 2)),
        Rectangle::centered_around(Location::new(1, 0), 6, 6)
    );
    assert_eq!(
        Location::new(1, 0),
        Rectangle::centered_around(Location::new(1, 0), 6, 6).center()
    );

    assert_eq!(
        Rectangle::new(Location::new(-3, -2), Location::new(2, 3)),
        Rectangle::centered_around(Location::new(0, 1), 6, 6)
    );
    assert_eq!(
        Location::new(0, 1),
        Rectangle::centered_around(Location::new(0, 1), 6, 6).center()
    );
}

#[test]
fn centering_around_produces_rectangle_with_given_dimensions() {
    let origin_odd_odd = Rectangle::centered_around(Location::origin(), 3, 5);
    assert_eq!(3, origin_odd_odd.width());
    assert_eq!(5, origin_odd_odd.height());

    let origin_even_even = Rectangle::centered_around(Location::origin(), 6, 8);
    assert_eq!(6, origin_even_even.width());
    assert_eq!(8, origin_even_even.height());

    let other_odd_odd = Rectangle::centered_around(Location::new(1, 1), 9, 7);
    assert_eq!(9, other_odd_odd.width());
    assert_eq!(7, other_odd_odd.height());

    let other_even_even = Rectangle::centered_around(Location::new(1, 1), 16, 2);
    assert_eq!(16, other_even_even.width());
    assert_eq!(2, other_even_even.height());
}

#[test]
fn interrection_of_non_overlapping_rectangles_is_none() {
    let a = Rectangle::new(Location::new(-10, -10), Location::new(-5, -5));
    let b = Rectangle::new(Location::new(10, 10), Location::new(5, 5));
    assert_eq!(None, a.intersect(b));
}

#[test]
fn intersection_of_a_rectangle_that_contains_another_is_the_smaller_one() {
    let a = Rectangle::new(Location::new(-10, -10), Location::new(10, 10));
    let b = Rectangle::new(Location::new(-5, -5), Location::new(5, 5));
    assert_eq!(Some(b), a.intersect(b));
}

#[test]
fn intersection_of_overlapping_rectangles_is_the_overlapping_part() {
    let a = Rectangle::new(Location::new(2, 1), Location::new(8, 5));
    let b = Rectangle::new(Location::new(5, 3), Location::new(15, 13));
    let c = Rectangle::new(Location::new(5, 3), Location::new(8, 5));
    assert_eq!(Some(c), a.intersect(b));
}

#[test]
fn contains_returns_true_if_the_location_is_inside_the_rectangle() {
    let rect = Rectangle::centered_around(Location::origin(), 5, 5);
    assert!(rect.contains(Location::origin()));
    assert!(rect.contains(Location::new(2, 2)));
    assert!(!rect.contains(Location::new(10, 10)));
    assert!(!rect.contains(Location::new(10, -10)));
    assert!(!rect.contains(Location::new(-10, 10)));
    assert!(!rect.contains(Location::new(-10, -10)));
}
