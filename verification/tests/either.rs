use aurars::either::Either;

#[test]
fn test_either() {
    let left: Either<i32, ()> = Either::Left(42);
    let right: Either<(), &str> = Either::Right("hello");

    assert_eq!(left, Either::Left(42));
    assert_eq!(right, Either::Right("hello"));
}

#[test]
fn test_either_copy() {
    let e: Either<i32, ()> = Either::Left(42);
    let e_copy = e;

    assert_eq!(e, e_copy);
}

#[test]
fn test_either_clone() {
    let e: Either<String, ()> = Either::Left(String::from("hello"));
    let e_clone = e.clone();
    let e_moved = e;

    assert_eq!(e_moved, e_clone);
}

#[test]
fn test_try_left() {
    let left: Either<i32, ()> = Either::Left(42);

    let left_val = (|| {
        let val = match left {
            Either::Left(val) => val,
            Either::Right(val) => return Either::Right(val),
        };
        Either::Left(val + 1)
    })();

    assert_eq!(left_val, Either::Left(43));
}

#[test]
fn test_try_right() {
    let right: Either<(), i32> = Either::Right(42);

    let right_val = (|| {
        let val = match right {
            Either::Right(val) => val,
            Either::Left(val) => return Either::Left(val),
        };
        Either::Right(val + 1)
    })();

    assert_eq!(right_val, Either::Right(43));
}

#[test]
fn test_predicates_and_extraction() {
    let left: Either<i32, &str> = Either::Left(42);
    let right: Either<i32, &str> = Either::Right("hello");

    assert!(left.is_left());
    assert!(!left.is_right());
    assert!(right.is_right());
    assert!(!right.is_left());

    assert_eq!(left.left(), Some(42));
    assert_eq!(left.right(), None);
    assert_eq!(right.left(), None);
    assert_eq!(right.right(), Some("hello"));
}

#[test]
fn test_as_left_as_right() {
    assert_eq!(Either::<i32, ()>::as_left(Some(42)), Either::Left(42));
    assert_eq!(Either::<i32, ()>::as_left(None), Either::Right(()));
    assert_eq!(Either::<(), i32>::as_right(Some(42)), Either::Right(42));
    assert_eq!(Either::<(), i32>::as_right(None), Either::Left(()));
}

#[test]
fn test_unwrap_matching_variant() {
    let left: Either<i32, &str> = Either::Left(42);
    let right: Either<i32, &str> = Either::Right("hello");

    assert_eq!(left.unwrap_left(), 42);
    assert_eq!(right.unwrap_right(), "hello");
}

#[test]
fn test_expected_matching_variant() {
    let left: Either<i32, &str> = Either::Left(42);
    let right: Either<i32, &str> = Either::Right("hello");

    assert_eq!(left.expected_left("wanted a left value"), 42);
    assert_eq!(right.expected_right("wanted a right value"), "hello");
}

#[test]
fn test_map_either() {
    let left: Either<i32, String> = Either::Left(42);
    let mapped = left.map_either(|x| x * 2, |s| s.len());
    assert_eq!(mapped, Either::Left(84));

    let right: Either<i32, String> = Either::Right(String::from("hello"));
    let mapped = right.map_either(|x| x * 2, |s| s.len());
    assert_eq!(mapped, Either::Right(5));
}

#[test]
fn test_map_either_identity() {
    let left: Either<i32, &str> = Either::Left(42);
    let right: Either<i32, &str> = Either::Right("hello");

    assert_eq!(left.map_either(|x| x, |s| s), left);
    assert_eq!(right.map_either(|x| x, |s| s), right);
}

#[test]
fn test_map_left() {
    let left: Either<i32, ()> = Either::Left(42);
    let right: Either<(), &str> = Either::Right("hello");

    assert_eq!(left.map_left(|x| x * 2), Either::Left(84));
    assert_eq!(right.map_left(|x: ()| x), Either::Right("hello"));
}

#[test]
fn test_map_left_composition() {
    let f = |x: i32| x + 3;
    let g = |x: i32| x * 2;

    let chained: Either<i32, ()> = Either::Left(5).map_left(f).map_left(g);
    let composed: Either<i32, ()> = Either::Left(5).map_left(|x| g(f(x)));
    assert_eq!(chained, composed);
    assert_eq!(chained, Either::Left(16));

    let chained_right: Either<i32, &str> = Either::Right("hello").map_left(f).map_left(g);
    assert_eq!(chained_right, Either::Right("hello"));
}

#[test]
fn test_map_right() {
    let left: Either<i32, &str> = Either::Left(42);
    let right: Either<i32, &str> = Either::Right("hello");

    assert_eq!(left.map_right(|s: &str| s.len()), Either::Left(42));
    assert_eq!(right.map_right(|s: &str| s.len()), Either::Right(5));
}

#[test]
fn test_swap() {
    let left: Either<i32, String> = Either::Left(42);
    let right: Either<String, i32> = Either::Right(84);

    assert_eq!(left.swap(), Either::Right(42));
    assert_eq!(right.swap(), Either::Left(84));
}

#[test]
fn test_swap_involution() {
    let left: Either<i32, &str> = Either::Left(42);
    let right: Either<i32, &str> = Either::Right("hello");

    assert_eq!(left.swap().swap(), left);
    assert_eq!(right.swap().swap(), right);
}

#[test]
fn test_result_round_trip() {
    let left: Either<i32, &str> = Either::Left(42);
    let right: Either<i32, &str> = Either::Right("hello");

    assert_eq!(Either::from_result(left.into_result()), left);
    assert_eq!(Either::from_result(right.into_result()), right);

    let ok: Result<i32, &str> = Ok(42);
    let err: Result<i32, &str> = Err("hello");
    assert_eq!(Either::from_result(ok).into_result(), ok);
    assert_eq!(Either::from_result(err).into_result(), err);

    assert_eq!(Either::<i32, &str>::from_result(ok), Either::Left(42));
    assert_eq!(left.into_result(), Ok(42));
}
