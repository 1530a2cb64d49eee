use raytrace::hittable::closest_hit;

#[test]
fn nearest_member_wins() {
    assert_eq!(closest_hit(&vec![Some(5), None, Some(3), Some(4)]), Some(2));
}

#[test]
fn no_member_hit() {
    assert_eq!(closest_hit(&vec![None, None]), None);
    assert_eq!(closest_hit(&vec![]), None);
}

#[test]
fn equal_distances_go_to_the_first_member() {
    assert_eq!(closest_hit(&vec![Some(9), Some(3), Some(3)]), Some(1));
}

#[test]
fn member_order_does_not_change_the_nearest_hit() {
    let near = 1_000u64;
    let far = 2_000u64;
    let a = vec![Some(near), Some(far)];
    let b = vec![Some(far), Some(near)];
    assert_eq!(a[closest_hit(&a).unwrap()], Some(near));
    assert_eq!(b[closest_hit(&b).unwrap()], Some(near));
}

#[test]
fn float_distance_keys_keep_their_order() {
    let ts: [f64; 3] = [2.5, 0.75, 1.0];
    let hits: Vec<Option<u64>> = ts.iter().map(|t| Some(t.to_bits())).collect();
    assert_eq!(closest_hit(&hits), Some(1));
}
