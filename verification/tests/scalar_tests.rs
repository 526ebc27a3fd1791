use m2s2_math::dot::accumulate;
use m2s2_math::Integral;

#[test]
fn identities_of_the_integer_types() {
    assert_eq!(<i32 as Integral>::zero(), 0);
    assert_eq!(<i32 as Integral>::one(), 1);
    assert_eq!(<i64 as Integral>::zero(), 0);
    assert_eq!(<i64 as Integral>::one(), 1);
    assert_eq!(7 + <i32 as Integral>::zero(), 7);
    assert_eq!(7 * <i64 as Integral>::one(), 7);
}

#[test]
fn accumulate_sums_products_from_the_left() {
    let a = [1, 2, 3, 4, 5, 6];
    let b = [10, 20, 30, 40, 50, 60];
    assert_eq!(accumulate(&a, 0, &b, 0, 1, 3, 0), 140);
    assert_eq!(accumulate(&a, 3, &b, 0, 1, 3, 0), 320);
    assert_eq!(accumulate(&a, 0, &b, 1, 2, 3, 0), 20 + 80 + 180);
    assert_eq!(accumulate(&a, 0, &b, 0, 1, 3, 1000), 1140);
    assert_eq!(accumulate(&a, 2, &b, 5, 0, 0, 42), 42);
    assert_eq!(accumulate(&[0.5, 0.25], 0, &[4.0, 8.0], 0, 1, 2, 0.0), 4.0);
}
