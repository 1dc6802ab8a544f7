use either::Either;
use either::Either::{Left, Right};

struct NoDebug(u8);

#[test]
fn left_gives_some_on_left_and_none_on_right() {
    let x: Either<i32, &str> = Left(3);
    assert_eq!(x.left(), Some(3));
    let x: Either<i32, &str> = Right("r");
    assert_eq!(x.left(), None);
}

#[test]
fn right_gives_some_on_right_and_none_on_left() {
    let x: Either<i32, &str> = Right("r");
    assert_eq!(x.right(), Some("r"));
    let x: Either<i32, &str> = Left(3);
    assert_eq!(x.right(), None);
}

#[test]
fn left_or_err_and_right_or_err() {
    let x: Either<i32, &str> = Left(3);
    assert_eq!(x.left_or_err(), Ok(3));
    assert_eq!(x.right_or_err(), Err(3));
    let x: Either<i32, &str> = Right("r");
    assert_eq!(x.left_or_err(), Err("r"));
    assert_eq!(x.right_or_err(), Ok("r"));
}

#[test]
fn into_left_converts_the_right() {
    let x: Either<i64, i32> = Left(3);
    assert_eq!(x.into_left(), 3i64);
    let x: Either<i64, i32> = Right(-4);
    assert_eq!(x.into_left(), -4i64);
}

#[test]
fn into_right_converts_the_left() {
    let x: Either<char, String> = Right(String::from("r"));
    assert_eq!(x.into_right(), "r");
    let x: Either<char, String> = Left('c');
    assert_eq!(x.into_right(), "c");
    let x: Either<&str, String> = Left("l");
    assert_eq!(x.into_right(), "l");
}

#[test]
fn try_into_left_reports_a_failed_conversion() {
    let x: Either<u8, i32> = Left(3);
    assert_eq!(x.try_into_left().ok(), Some(3u8));
    let x: Either<u8, i32> = Right(200);
    assert_eq!(x.try_into_left().ok(), Some(200u8));
    let x: Either<u8, i32> = Right(256);
    assert!(x.try_into_left().is_err());
    let x: Either<u8, i32> = Right(-1);
    assert!(x.try_into_left().is_err());
}

#[test]
fn try_into_right_reports_a_failed_conversion() {
    let x: Either<i32, u8> = Right(3);
    assert_eq!(x.try_into_right().ok(), Some(3u8));
    let x: Either<i32, u8> = Left(255);
    assert_eq!(x.try_into_right().ok(), Some(255u8));
    let x: Either<i32, u8> = Left(256);
    assert!(x.try_into_right().is_err());
}

#[test]
fn left_unwrap_returns_the_left_value() {
    let x: Either<i32, String> = Left(3);
    assert_eq!(x.left_unwrap(), 3);
    for v in [i64::MIN, 0, 42, i64::MAX] {
        let x: Either<i64, ()> = Left(v);
        assert_eq!(x.left_unwrap(), v);
    }
}

#[test]
fn right_unwrap_returns_the_right_value() {
    let x: Either<i32, String> = Right(String::from("r"));
    assert_eq!(x.right_unwrap(), "r");
}

#[test]
fn left_expect_and_right_expect_on_the_expected_side() {
    let x: Either<i32, String> = Left(3);
    assert_eq!(x.left_expect("a left value"), 3);
    let x: Either<i32, String> = Right(String::from("r"));
    assert_eq!(x.right_expect("a right value"), "r");
}

#[test]
fn unwrap_unchecked_on_the_expected_side() {
    let x: Either<i32, NoDebug> = Left(3);
    assert_eq!(x.left_unwrap_unchecked(), 3);
    let x: Either<NoDebug, i32> = Right(5);
    assert_eq!(x.right_unwrap_unchecked(), 5);
    let x: Either<NoDebug, i32> = Left(NoDebug(9));
    assert_eq!(x.left_unwrap_unchecked().0, 9);
}

#[test]
fn unwrap_or_takes_the_default_on_the_other_side() {
    let x: Either<i32, &str> = Left(3);
    assert_eq!(x.left_unwrap_or(9), 3);
    assert_eq!(x.right_unwrap_or("d"), "d");
    let x: Either<i32, &str> = Right("r");
    assert_eq!(x.left_unwrap_or(9), 9);
    assert_eq!(x.right_unwrap_or("d"), "r");
}

#[test]
fn unwrap_or_else_computes_from_the_other_side() {
    let x: Either<usize, &str> = Left(3);
    assert_eq!(x.left_unwrap_or_else(|s| s.len()), 3);
    let x: Either<usize, &str> = Right("four");
    assert_eq!(x.left_unwrap_or_else(|s| s.len()), 4);
    let x: Either<usize, String> = Left(3);
    assert_eq!(x.right_unwrap_or_else(|n| "x".repeat(n)), "xxx");
    let x: Either<usize, String> = Right(String::from("r"));
    assert_eq!(x.right_unwrap_or_else(|n| "x".repeat(n)), "r");
}

#[test]
fn unwrap_or_default_takes_the_default_on_the_other_side() {
    let x: Either<i32, &str> = Left(3);
    assert_eq!(x.left_unwrap_or_default(), 3);
    assert_eq!(x.right_unwrap_or_default(), "");
    let x: Either<i32, &str> = Right("r");
    assert_eq!(x.left_unwrap_or_default(), 0);
    assert_eq!(x.right_unwrap_or_default(), "r");
}
