use either::Either;
use either::Either::{Left, Right};

#[test]
fn as_ref_of_left_is_left_of_reference() {
    let x: Either<i32, String> = Left(3);
    assert!(matches!(x.as_ref(), Left(&3)));
    // `x` is still there
    assert_eq!(x, Left(3));
}

#[test]
fn as_ref_of_right_is_right_of_reference() {
    let x: Either<i32, String> = Right(String::from("r"));
    let y: Either<&i32, &String> = x.as_ref();
    assert_eq!(y, Right(&String::from("r")));
}

#[test]
fn as_mut_writes_through_to_the_left() {
    let mut x: Either<i32, String> = Left(3);
    match x.as_mut() {
        Left(v) => *v += 1,
        Right(s) => s.push('x'),
    }
    assert_eq!(x, Left(4));
}

#[test]
fn as_mut_writes_through_to_the_right() {
    let mut x: Either<i32, String> = Right(String::from("r"));
    match x.as_mut() {
        Left(v) => *v += 1,
        Right(s) => s.push('x'),
    }
    assert_eq!(x, Right(String::from("rx")));
}

#[test]
fn as_deref_dereferences_once() {
    let x: Either<Vec<u8>, String> = Left(vec![1, 2, 3]);
    let y: Either<&[u8], &str> = x.as_deref();
    assert_eq!(y, Left(&[1u8, 2, 3][..]));
    let x: Either<Vec<u8>, String> = Right(String::from("abc"));
    let y: Either<&[u8], &str> = x.as_deref();
    assert_eq!(y, Right("abc"));
}

#[test]
fn as_deref_mut_writes_through() {
    let mut x: Either<Vec<u8>, String> = Left(vec![1, 2, 3]);
    match x.as_deref_mut() {
        Left(bytes) => bytes[0] = 9,
        Right(text) => text.make_ascii_uppercase(),
    }
    assert_eq!(x, Left(vec![9, 2, 3]));
    let mut x: Either<Vec<u8>, String> = Right(String::from("abc"));
    match x.as_deref_mut() {
        Left(bytes) => bytes[0] = 9,
        Right(text) => text.make_ascii_uppercase(),
    }
    assert_eq!(x, Right(String::from("ABC")));
}

#[test]
fn as_left_and_as_right() {
    let x: Either<i32, u32> = Left(3);
    assert_eq!(x.as_left(), Some(&3));
    assert_eq!(x.as_right(), None);
    let x: Either<i32, u32> = Right(5);
    assert_eq!(x.as_left(), None);
    assert_eq!(x.as_right(), Some(&5));
}

#[test]
fn as_left_mut_and_as_right_mut() {
    let mut x: Either<i32, u32> = Left(3);
    assert_eq!(x.as_left_mut().copied(), Some(3));
    assert!(x.as_right_mut().is_none());
    if let Some(v) = x.as_left_mut() {
        *v = 4;
    }
    assert_eq!(x, Left(4));

    let mut x: Either<i32, u32> = Right(5);
    assert_eq!(x.as_right_mut().copied(), Some(5));
    assert!(x.as_left_mut().is_none());
    if let Some(v) = x.as_right_mut() {
        *v = 6;
    }
    assert_eq!(x, Right(6));
}

#[test]
fn unchecked_accessors_on_the_right_side() {
    let x: Either<i32, u32> = Left(3);
    assert_eq!(x.as_left_unchecked(), &3);
    let x: Either<i32, u32> = Right(5);
    assert_eq!(x.as_right_unchecked(), &5);
}

#[test]
fn unchecked_mut_accessors_write_through() {
    let mut x: Either<i32, u32> = Left(3);
    *x.as_left_unchecked_mut() = 4;
    assert_eq!(x, Left(4));
    let mut x: Either<i32, u32> = Right(5);
    *x.as_right_unchecked_mut() = 4;
    assert_eq!(x, Right(4));
}

#[test]
fn cloned_from_shared_references() {
    let x: Either<&i32, &String> = Left(&3);
    assert_eq!(x.cloned(), Left(3));
    let s = String::from("s");
    let x: Either<&i32, &String> = Right(&s);
    assert_eq!(x.cloned(), Right(String::from("s")));
}

#[test]
fn copied_from_shared_references() {
    let x: Either<&i32, &u8> = Left(&3);
    assert_eq!(x.copied(), Left(3));
    let x: Either<&i32, &u8> = Right(&7);
    assert_eq!(x.copied(), Right(7));
}

#[test]
fn cloned_from_mutable_references() {
    let mut value = 3;
    let x: Either<&mut i32, &mut String> = Left(&mut value);
    assert_eq!(x.cloned(), Left(3));
    let mut s = String::from("s");
    let x: Either<&mut i32, &mut String> = Right(&mut s);
    assert_eq!(x.cloned(), Right(String::from("s")));
}

#[test]
fn copied_from_mutable_references() {
    let mut value = 3;
    let x: Either<&mut i32, &mut u8> = Left(&mut value);
    assert_eq!(x.copied(), Left(3));
    let mut b = 7u8;
    let x: Either<&mut i32, &mut u8> = Right(&mut b);
    assert_eq!(x.copied(), Right(7));
}
