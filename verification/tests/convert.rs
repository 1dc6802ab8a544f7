use either::Either;
use either::Either::{Left, Right};

#[test]
fn option_transpose_keeps_some_on_its_side() {
    let x: Either<Option<i32>, Option<&str>> = Left(Some(3));
    assert_eq!(x.transpose(), Some(Left(3)));
    let x: Either<Option<i32>, Option<&str>> = Right(Some("r"));
    assert_eq!(x.transpose(), Some(Right("r")));
}

#[test]
fn option_transpose_gives_none_for_none_on_either_side() {
    let x: Either<Option<i32>, Option<&str>> = Left(None);
    assert_eq!(x.transpose(), None);
    let x: Either<Option<i32>, Option<&str>> = Right(None);
    assert_eq!(x.transpose(), None);
}

#[test]
fn result_transpose_tags_the_success() {
    let x: Either<Result<i32, &str>, Result<u8, &str>> = Left(Ok(3));
    assert_eq!(x.transpose(), Ok(Left(3)));
    let x: Either<Result<i32, &str>, Result<u8, &str>> = Right(Ok(4));
    assert_eq!(x.transpose(), Ok(Right(4)));
}

#[test]
fn result_transpose_passes_the_failure_on() {
    let x: Either<Result<i32, &str>, Result<u8, &str>> = Left(Err("l"));
    assert_eq!(x.transpose(), Err("l"));
    let x: Either<Result<i32, &str>, Result<u8, &str>> = Right(Err("r"));
    assert_eq!(x.transpose(), Err("r"));
}

#[test]
fn result_of_either_from_either_of_results() {
    let x: Either<Result<i32, &str>, Result<i32, &str>> = Left(Ok::<i32, &str>(5));
    let y: Either<Result<i32, &str>, Result<i32, &str>> = Right(Ok::<i32, &str>(5));
    let tx: Result<Either<i32, i32>, Either<&str, &str>> = Result::from(x);
    let ty: Result<Either<i32, i32>, Either<&str, &str>> = Result::from(y);
    assert_eq!(tx, Ok(Left(5)));
    assert_eq!(ty, Ok(Right(5)));
}

#[test]
fn result_of_either_tags_failures_too() {
    let x: Either<Result<i32, &str>, Result<u8, bool>> = Left(Err("l"));
    let y: Either<Result<i32, &str>, Result<u8, bool>> = Right(Err(true));
    let tx: Result<Either<i32, u8>, Either<&str, bool>> = x.into();
    let ty: Result<Either<i32, u8>, Either<&str, bool>> = y.into();
    assert_eq!(tx, Err(Left("l")));
    assert_eq!(ty, Err(Right(true)));
}

#[test]
fn either_of_results_from_result_of_either() {
    type Inner = Either<Result<i32, &'static str>, Result<u8, bool>>;
    type Outer = Result<Either<i32, u8>, Either<&'static str, bool>>;
    assert_eq!(Inner::from(Outer::Ok(Left(1))), Left(Ok(1)));
    assert_eq!(Inner::from(Outer::Ok(Right(2))), Right(Ok(2)));
    assert_eq!(Inner::from(Outer::Err(Left("l"))), Left(Err("l")));
    assert_eq!(Inner::from(Outer::Err(Right(false))), Right(Err(false)));
}

#[test]
fn transposing_results_there_and_back_is_identity() {
    type Inner = Either<Result<i32, &'static str>, Result<u8, bool>>;
    type Outer = Result<Either<i32, u8>, Either<&'static str, bool>>;
    let inners: Vec<Inner> = vec![Left(Ok(1)), Left(Err("e")), Right(Ok(2)), Right(Err(true))];
    for x in inners {
        assert_eq!(Inner::from(Outer::from(x)), x);
    }
    let outers: Vec<Outer> = vec![Ok(Left(1)), Ok(Right(2)), Err(Left("e")), Err(Right(true))];
    for r in outers {
        assert_eq!(Outer::from(Inner::from(r)), r);
    }
}

#[test]
fn shared_first_component_is_pulled_out() {
    let x: Either<(&str, i32), (&str, bool)> = Left(("k", 3));
    let (key, value): (&str, Either<i32, bool>) = x.into();
    assert_eq!(key, "k");
    assert_eq!(value, Left(3));
    let x: Either<(&str, i32), (&str, bool)> = Right(("k", true));
    let (key, value): (&str, Either<i32, bool>) = x.into();
    assert_eq!(key, "k");
    assert_eq!(value, Right(true));
}

#[test]
fn shared_second_component_is_pulled_out() {
    let x: Either<(i32, &str), (bool, &str)> = Left((3, "k"));
    let (value, key): (Either<i32, bool>, &str) = x.into();
    assert_eq!(value, Left(3));
    assert_eq!(key, "k");
    let x: Either<(i32, &str), (bool, &str)> = Right((false, "k"));
    let (value, key): (Either<i32, bool>, &str) = x.into();
    assert_eq!(value, Right(false));
    assert_eq!(key, "k");
}

#[test]
fn option_from_either_of_options() {
    let x: Either<Option<i32>, Option<&str>> = Left(Some(3));
    assert_eq!(Option::<Either<i32, &str>>::from(x), Some(Left(3)));
    let x: Either<Option<i32>, Option<&str>> = Right(Some("r"));
    assert_eq!(Option::<Either<i32, &str>>::from(x), Some(Right("r")));
    let x: Either<Option<i32>, Option<&str>> = Left(None);
    assert_eq!(Option::<Either<i32, &str>>::from(x), None);
    let x: Either<Option<i32>, Option<&str>> = Right(None);
    assert_eq!(Option::<Either<i32, &str>>::from(x), None);
}

#[test]
fn shared_success_with_tagged_failure() {
    let x: Either<Result<i32, &str>, Result<i32, bool>> = Left(Ok(3));
    assert_eq!(Result::<i32, Either<&str, bool>>::from(x), Ok(3));
    let x: Either<Result<i32, &str>, Result<i32, bool>> = Right(Ok(4));
    assert_eq!(Result::<i32, Either<&str, bool>>::from(x), Ok(4));
    let x: Either<Result<i32, &str>, Result<i32, bool>> = Left(Err("l"));
    assert_eq!(Result::<i32, Either<&str, bool>>::from(x), Err(Left("l")));
    let x: Either<Result<i32, &str>, Result<i32, bool>> = Right(Err(true));
    assert_eq!(Result::<i32, Either<&str, bool>>::from(x), Err(Right(true)));
}

#[test]
fn tagged_success_with_shared_failure() {
    let x: Either<Result<i32, &str>, Result<bool, &str>> = Left(Ok(3));
    assert_eq!(Result::<Either<i32, bool>, &str>::from(x), Ok(Left(3)));
    let x: Either<Result<i32, &str>, Result<bool, &str>> = Right(Ok(true));
    assert_eq!(Result::<Either<i32, bool>, &str>::from(x), Ok(Right(true)));
    let x: Either<Result<i32, &str>, Result<bool, &str>> = Left(Err("l"));
    assert_eq!(Result::<Either<i32, bool>, &str>::from(x), Err("l"));
    let x: Either<Result<i32, &str>, Result<bool, &str>> = Right(Err("r"));
    assert_eq!(Result::<Either<i32, bool>, &str>::from(x), Err("r"));
}

#[test]
fn fallible_pair_has_its_second_component_tagged() {
    type Outcome = Result<(&'static str, Either<i32, bool>), Either<u8, char>>;
    let x: Either<Result<(&str, i32), u8>, Result<(&str, bool), char>> = Left(Ok(("k", 3)));
    assert_eq!(Outcome::from(x), Ok(("k", Left(3))));
    let x: Either<Result<(&str, i32), u8>, Result<(&str, bool), char>> = Right(Ok(("k", true)));
    assert_eq!(Outcome::from(x), Ok(("k", Right(true))));
    let x: Either<Result<(&str, i32), u8>, Result<(&str, bool), char>> = Left(Err(7));
    assert_eq!(Outcome::from(x), Err(Left(7)));
    let x: Either<Result<(&str, i32), u8>, Result<(&str, bool), char>> = Right(Err('e'));
    assert_eq!(Outcome::from(x), Err(Right('e')));
}
