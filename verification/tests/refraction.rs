use ray_tracer::refraction::{media_around_hit, media_at_hit};

fn index(m: Option<usize>, table: &[f64]) -> f64 {
    match m {
        None => 1.0,
        Some(i) => table[i],
    }
}

#[test]
fn precompute_n1_n2() {
    // (intersection_idx, expected_n1, expected_n2)
    let examples: Vec<(usize, f64, f64)> = vec![
        (0, 1.0, 1.5),
        (1, 1.5, 2.0),
        (2, 2.0, 2.5),
        (3, 2.5, 2.5),
        (4, 2.5, 1.5),
        (5, 1.5, 1.0),
    ];
    // spheres A (1.5), B (2.0), C (2.5); the ray meets A, B, C, B, C, A
    let refractive = [1.5, 2.0, 2.5];
    let objects: Vec<usize> = vec![0, 1, 2, 1, 2, 0];
    for (i, n1, n2) in examples {
        let (from, to) = media_at_hit(&objects, i);
        assert_eq!(index(from, &refractive), n1);
        assert_eq!(index(to, &refractive), n2);
    }
}

#[test]
fn exit_medium_is_next_entry_medium() {
    let objects: Vec<usize> = vec![3, 1, 1, 4, 3, 4];
    for k in 0..objects.len() - 1 {
        assert_eq!(media_at_hit(&objects, k).1, media_at_hit(&objects, k + 1).0);
    }
}

#[test]
fn first_hit_comes_from_empty_space() {
    let objects: Vec<usize> = vec![7, 7];
    assert_eq!(media_at_hit(&objects, 0), (None, Some(7)));
    assert_eq!(media_at_hit(&objects, 1), (Some(7), None));
}

#[test]
fn leaving_an_outer_object_keeps_the_inner_one() {
    // enter 0, enter 1, leave 0, leave 1
    let objects: Vec<usize> = vec![0, 1, 0, 1];
    assert_eq!(media_at_hit(&objects, 2), (Some(1), Some(1)));
    assert_eq!(media_at_hit(&objects, 3), (Some(1), None));
}

#[test]
fn after_leaving_everything_the_ray_is_outside() {
    let objects: Vec<usize> = vec![2, 5, 5, 2];
    assert_eq!(media_at_hit(&objects, 3).1, None);
    assert_eq!(media_at_hit(&objects, 1), (Some(2), Some(5)));
}

#[test]
fn hit_not_found_means_empty_space_on_both_sides() {
    let objects: Vec<usize> = vec![0, 1, 2, 1, 2, 0];
    assert_eq!(media_around_hit(&objects, None), (None, None));
    assert_eq!(media_around_hit(&objects, Some(3)), (Some(2), Some(2)));
}
