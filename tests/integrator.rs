use raytrace::camera::{average, image_height};
use raytrace::color::{COLOR_ONE, MAX_LINEAR};
use raytrace::integrator::{background, mul_color, Event, PathState, Step};

fn done(s: Step) -> (i64, i64, i64) {
    match s {
        Step::Done(c) => c,
        Step::Continue(_) => panic!("the path should have ended"),
    }
}

#[test]
fn background_at_zenith_is_sky_blue() {
    assert_eq!(background(COLOR_ONE), (32768, 45875, 65536));
}

#[test]
fn background_at_nadir_is_white() {
    assert_eq!(background(-COLOR_ONE), (COLOR_ONE, COLOR_ONE, COLOR_ONE));
}

#[test]
fn background_at_horizon_is_halfway() {
    assert_eq!(background(0), (49152, 55705, 65536));
}

#[test]
fn exhausted_path_is_black() {
    let s = PathState::new(0);
    assert!(!s.can_bounce());
    assert_eq!(done(s.step(Event::Miss(COLOR_ONE))), (0, 0, 0));
    assert_eq!(done(s.step(Event::Scattered((COLOR_ONE, COLOR_ONE, COLOR_ONE)))), (0, 0, 0));
}

#[test]
fn first_miss_shows_background() {
    let s = PathState::new(50);
    assert!(s.can_bounce());
    assert_eq!(done(s.step(Event::Miss(0))), background(0));
}

#[test]
fn absorption_is_black() {
    assert_eq!(done(PathState::new(5).step(Event::Absorbed)), (0, 0, 0));
}

#[test]
fn scatter_gathers_attenuation_and_uses_a_bounce() {
    let s = PathState::new(3);
    let next = match s.step(Event::Scattered((COLOR_ONE / 2, COLOR_ONE, 0))) {
        Step::Continue(n) => n,
        Step::Done(_) => panic!("the path should go on"),
    };
    assert_eq!(next.throughput, (32768, 65536, 0));
    assert_eq!(next.depth, 2);
    assert_eq!(done(next.step(Event::Miss(-COLOR_ONE))), (32768, 65536, 0));
}

#[test]
fn bounce_limit_ends_the_path() {
    let mut s = PathState::new(2);
    for _ in 0..2 {
        s = match s.step(Event::Scattered((COLOR_ONE, COLOR_ONE, COLOR_ONE))) {
            Step::Continue(n) => n,
            Step::Done(_) => panic!("bounces were left"),
        };
    }
    assert_eq!(s.depth, 0);
    assert_eq!(done(s.step(Event::Miss(COLOR_ONE))), (0, 0, 0));
}

#[test]
fn color_product_saturates() {
    let big = (MAX_LINEAR, 3, 0);
    assert_eq!(mul_color(big, (2 * COLOR_ONE, COLOR_ONE, 5)), (MAX_LINEAR, 3, 0));
}

#[test]
fn image_height_from_aspect_ratio() {
    assert_eq!(image_height(400, 16, 9), 225);
    assert_eq!(image_height(1, 16, 9), 1);
    assert_eq!(image_height(300, 3, 2), 200);
}

#[test]
fn pixel_is_mean_of_samples() {
    assert_eq!(average(&vec![(1, 2, 3), (4, 5, 6)]), (2, 3, 4));
    assert_eq!(average(&vec![(7, 8, 9)]), (7, 8, 9));
}
