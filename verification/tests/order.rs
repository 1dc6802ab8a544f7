use either::Either;
use either::Either::{Left, Right};
use std::cmp::Ordering;
use std::collections::hash_map::DefaultHasher;
use std::hash::{Hash, Hasher};

fn hash_of<T: Hash>(value: &T) -> u64 {
    let mut hasher = DefaultHasher::new();
    value.hash(&mut hasher);
    hasher.finish()
}

#[test]
fn every_left_is_less_than_every_right() {
    assert!(Either::<i32, i32>::Left(100) < Either::<i32, i32>::Right(0));
    assert!(Either::<i32, i32>::Right(0) > Either::<i32, i32>::Left(100));
    assert!(Either::<&str, u8>::Left("zzz") < Either::<&str, u8>::Right(0));
    assert!(Either::<i32, i32>::Left(i32::MAX) < Either::<i32, i32>::Right(i32::MIN));
}

#[test]
fn same_side_orders_by_the_value() {
    assert!(Either::<i32, i32>::Left(1) < Either::<i32, i32>::Left(2));
    assert!(Either::<i32, i32>::Right(2) > Either::<i32, i32>::Right(1));
    assert!(Either::<i32, i32>::Left(1) <= Either::<i32, i32>::Left(1));
    assert!(Either::<i32, i32>::Right(1) >= Either::<i32, i32>::Right(1));
}

#[test]
fn partial_cmp_gives_the_ordering() {
    let l: Either<i32, i32> = Left(100);
    let r: Either<i32, i32> = Right(0);
    assert_eq!(l.partial_cmp(&r), Some(Ordering::Less));
    assert_eq!(r.partial_cmp(&l), Some(Ordering::Greater));
    assert_eq!(l.partial_cmp(&l), Some(Ordering::Equal));
    assert_eq!(l.partial_cmp(&Left(101)), Some(Ordering::Less));
    assert_eq!(r.partial_cmp(&Right(-1)), Some(Ordering::Greater));
}

#[test]
fn partial_cmp_is_none_where_the_values_do_not_compare() {
    let a: Either<f64, f64> = Left(f64::NAN);
    let b: Either<f64, f64> = Left(1.0);
    assert_eq!(a.partial_cmp(&b), None);
    let c: Either<f64, f64> = Right(f64::NAN);
    assert_eq!(a.partial_cmp(&c), Some(Ordering::Less));
}

#[test]
fn cmp_agrees_with_partial_cmp() {
    let values: Vec<Either<i32, u8>> =
        vec![Left(-1), Left(0), Left(100), Right(0), Right(1), Right(255)];
    for (i, a) in values.iter().enumerate() {
        for (j, b) in values.iter().enumerate() {
            assert_eq!(a.cmp(b), i.cmp(&j));
            assert_eq!(a.partial_cmp(b), Some(a.cmp(b)));
        }
    }
}

#[test]
fn sorting_puts_lefts_first() {
    let mut values: Vec<Either<i32, i32>> = vec![Right(0), Left(100), Right(-5), Left(-3)];
    values.sort();
    assert_eq!(values, vec![Left(-3), Left(100), Right(-5), Right(0)]);
}

#[test]
fn equality_goes_by_side_and_value() {
    assert_eq!(Either::<i32, i32>::Left(3), Either::<i32, i32>::Left(3));
    assert_eq!(Either::<i32, i32>::Right(3), Either::<i32, i32>::Right(3));
    assert_ne!(Either::<i32, i32>::Left(3), Either::<i32, i32>::Right(3));
    assert_ne!(Either::<i32, i32>::Left(3), Either::<i32, i32>::Left(4));
    assert_ne!(Either::<i32, i32>::Right(3), Either::<i32, i32>::Right(4));
}

#[test]
fn equal_values_hash_alike_and_sides_hash_apart() {
    let a: Either<i32, i32> = Left(3);
    let b: Either<i32, i32> = Left(3);
    let c: Either<i32, i32> = Right(3);
    assert_eq!(hash_of(&a), hash_of(&b));
    assert_ne!(hash_of(&a), hash_of(&c));
}

#[test]
fn debug_names_the_side() {
    let a: Either<i32, &str> = Left(3);
    let b: Either<i32, &str> = Right("r");
    assert_eq!(format!("{a:?}"), "Left(3)");
    assert_eq!(format!("{b:?}"), "Right(\"r\")");
}
