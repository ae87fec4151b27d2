use arcade::geom::{circle_rect_collide, circles_collide, div_nn, div_trunc_ex, Vec2};
use arcade::trig::{cos_lookup, sin_lookup};

#[test]
fn sine_table_values() {
    assert_eq!(sin_lookup(0), 0);
    assert_eq!(sin_lookup(30), 500);
    assert_eq!(sin_lookup(45), 707);
    assert_eq!(sin_lookup(90), 1000);
    assert_eq!(sin_lookup(150), 500);
    assert_eq!(sin_lookup(180), 0);
    assert_eq!(sin_lookup(270), -1000);
    assert_eq!(sin_lookup(330), -500);
    assert_eq!(cos_lookup(0), 1000);
    assert_eq!(cos_lookup(60), 500);
    assert_eq!(cos_lookup(90), 0);
    assert_eq!(cos_lookup(180), -1000);
    assert_eq!(cos_lookup(270), 0);
    assert_eq!(cos_lookup(300), 500);
}

#[test]
fn circle_overlap_is_strict() {
    let a = Vec2::new(0, 0);
    let b = Vec2::new(5000, 0);
    // Distance equals the radius sum: no overlap under the strict test.
    assert!(!circles_collide(&a, 2000, &b, 3000));
    assert!(circles_collide(&a, 2001, &b, 3000));
    let c = Vec2::new(3000, 4000);
    assert!(!circles_collide(&a, 2500, &c, 2500));
    assert!(circles_collide(&a, 2501, &c, 2500));
}

#[test]
fn circle_rect_overlap_cases() {
    let rc = Vec2::new(0, 0);
    // Circle straight above the rectangle, touching within the radius.
    assert!(circle_rect_collide(&Vec2::new(0, -12000), 3000, &rc, 10000, 10000));
    assert!(!circle_rect_collide(&Vec2::new(0, -14000), 3000, &rc, 10000, 10000));
    // Near the corner the diagonal distance decides.
    assert!(!circle_rect_collide(&Vec2::new(12500, 12500), 3000, &rc, 10000, 10000));
    assert!(circle_rect_collide(&Vec2::new(12000, 12000), 3000, &rc, 10000, 10000));
    // Center inside the rectangle.
    assert!(circle_rect_collide(&Vec2::new(1000, 1000), 1, &rc, 10000, 10000));
}

#[test]
fn division_helpers_truncate_toward_zero() {
    assert_eq!(div_nn(7, 2), 3);
    assert_eq!(div_nn(0, 5), 0);
    assert_eq!(div_trunc_ex(7, 2), 3);
    assert_eq!(div_trunc_ex(-7, 2), -3);
    assert_eq!(div_trunc_ex(-1, 1000), 0);
}
