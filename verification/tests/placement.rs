use z_buffer_game::poisson::{distance_sq, poisson_discrete};

#[test]
fn poisson_discrete_selects_first_point_as_the_center() {
    let no_draws: Vec<(u32, u32)> = Vec::new();
    assert_eq!(
        vec![(15, 11)],
        poisson_discrete(&no_draws, 32, 24, 1, 4, 100)
    );
    assert_eq!(vec![(4, 5)], poisson_discrete(&no_draws, 9, 11, 1, 4, 100));
}

#[test]
fn poisson_discs_are_not_overlapping() {
    {
        let draws = vec![(8, 10), (2, 2)];
        let points = poisson_discrete(&draws, 20, 20, 2, 3, 2);
        // Notice that the first candidate (8, 10) is discarded: it is too
        // close to the seeded centre (9, 9).
        assert_eq!(2, points.len());
        assert_eq!(vec![(9, 9), (2, 2)], points);
    }
    {
        let r: u32 = 1;
        let draws = vec![(9, 9), (2, 2), (6, 6), (2, 7), (5, 5), (6, 7)];
        let points = poisson_discrete(&draws, 20, 20, 10, r, 3);
        // The candidate at the centre itself and the two candidates near
        // (6, 6) are discarded, which exhausts the retry budget of three.
        assert_eq!(4, points.len());
        assert_eq!(vec![(9, 9), (2, 2), (6, 6), (2, 7)], points);
    }
}

#[test]
fn distance_sq_is_the_squared_euclidean_distance() {
    assert_eq!(0, distance_sq((5, 5), (5, 5)));
    assert_eq!(25, distance_sq((0, 0), (3, 4)));
    assert_eq!(25, distance_sq((3, 4), (0, 0)));
    assert_eq!(2, distance_sq((10, 10), (9, 11)));
}

#[test]
fn accepted_points_keep_the_minimum_separation() {
    // A dense candidate stream; whatever is accepted must stay separated.
    let mut draws = Vec::new();
    let mut state: u32 = 7;
    for _ in 0..300 {
        state = state.wrapping_mul(1664525).wrapping_add(1013904223);
        let x = state % 40;
        state = state.wrapping_mul(1664525).wrapping_add(1013904223);
        let y = state % 30;
        draws.push((x, y));
    }
    let radius: u32 = 2;
    let separation_sq = (2 * radius) * (2 * radius);
    let points = poisson_discrete(&draws, 40, 30, 50, radius, 250);
    assert!(!points.is_empty());
    assert_eq!((19, 14), points[0]);
    for i in 0..points.len() {
        let (x, y) = points[i];
        assert!(x < 40 && y < 30);
        for j in (i + 1)..points.len() {
            assert!(distance_sq(points[i], points[j]) > separation_sq);
        }
    }
}
