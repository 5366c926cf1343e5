use surreal_query_builder::Maybe;

#[test]
fn presence_queries() {
    let present: Maybe<u32> = Maybe::Just(2);
    let absent: Maybe<u32> = Maybe::Nothing;
    assert!(present.is_some());
    assert!(!present.is_none());
    assert!(absent.is_none());
    assert!(present.is_some_and(|x| x > 1));
    assert!(!Maybe::Just(0u32).is_some_and(|x| x > 1));
    assert!(!absent.is_some_and(|x| x > 1));
}

#[test]
fn unwrapping_variants() {
    assert_eq!(Maybe::Just("air").unwrap(), "air");
    assert_eq!(Maybe::Just("value").expect("should hold a value"), "value");
    assert_eq!(Maybe::Just("car").unwrap_or("bike"), "car");
    assert_eq!(Maybe::<&str>::Nothing.unwrap_or("bike"), "bike");
    let k = 10;
    assert_eq!(Maybe::Just(4).unwrap_or_else(|| 2 * k), 4);
    assert_eq!(Maybe::<i32>::Nothing.unwrap_or_else(|| 2 * k), 20);
    assert_eq!(Maybe::<u32>::Nothing.unwrap_or_default(), 0);
    assert_eq!(Maybe::Just(12u32).unwrap_or_default(), 12);
}

#[test]
fn transformations() {
    let text = Maybe::Just("Hello, World!".to_string());
    let len = text.map(|s| s.len());
    assert_eq!(len, Maybe::Just(13));
    assert_eq!(Maybe::<String>::Nothing.map(|s| s.len()), Maybe::Nothing);

    assert_eq!(Maybe::Just("foo").map_or(42, |v| v.len()), 3);
    assert_eq!(Maybe::<&str>::Nothing.map_or(42, |v| v.len()), 42);
    assert_eq!(Maybe::Just("foo").map_or_else(|| 42, |v| v.len()), 3);
    assert_eq!(Maybe::<&str>::Nothing.map_or_else(|| 42, |v| v.len()), 42);

    assert_eq!(Maybe::Just("foo").ok_or(0), Ok("foo"));
    assert_eq!(Maybe::<&str>::Nothing.ok_or(0), Err(0));
    assert_eq!(Maybe::Just("foo").ok_or_else(|| 0), Ok("foo"));
    assert_eq!(Maybe::<&str>::Nothing.ok_or_else(|| 0), Err(0));
}

#[test]
fn boolean_combinators() {
    let two = Maybe::Just(2u32);
    assert_eq!(two.and(Maybe::Just("foo")), Maybe::Just("foo"));
    assert_eq!(Maybe::<u32>::Nothing.and(Maybe::Just("foo")), Maybe::Nothing);
    assert_eq!(Maybe::Just(2u32).and_then(|x| Maybe::Just(x * 2)), Maybe::Just(4));
    assert_eq!(Maybe::<u32>::Nothing.and_then(|x| Maybe::Just(x * 2)), Maybe::Nothing);

    assert_eq!(Maybe::Just(4).filter(|n| n % 2 == 0), Maybe::Just(4));
    assert_eq!(Maybe::Just(3).filter(|n| n % 2 == 0), Maybe::Nothing);
    assert_eq!(Maybe::<i32>::Nothing.filter(|n| n % 2 == 0), Maybe::Nothing);

    assert_eq!(Maybe::Just(2).or(Maybe::Nothing), Maybe::Just(2));
    assert_eq!(Maybe::Nothing.or(Maybe::Just(100)), Maybe::Just(100));
    assert_eq!(Maybe::Just(2).or_else(|| Maybe::Just(100)), Maybe::Just(2));
    assert_eq!(Maybe::<i32>::Nothing.or_else(|| Maybe::Just(100)), Maybe::Just(100));

    assert_eq!(Maybe::Just(2).xor(Maybe::Nothing), Maybe::Just(2));
    assert_eq!(Maybe::Nothing.xor(Maybe::Just(2)), Maybe::Just(2));
    assert_eq!(Maybe::Just(2).xor(Maybe::Just(2)), Maybe::Nothing);
    assert_eq!(Maybe::<i32>::Nothing.xor(Maybe::Nothing), Maybe::Nothing);
}

#[test]
fn in_place_operations() {
    let mut x = Maybe::Just(2);
    let y = x.take();
    assert_eq!(x, Maybe::Nothing);
    assert_eq!(y, Maybe::Just(2));

    let mut x = Maybe::Just(2);
    let old = x.replace(5);
    assert_eq!(x, Maybe::Just(5));
    assert_eq!(old, Maybe::Just(2));

    let mut x = Maybe::Just(2);
    match x.as_mut() {
        Maybe::Just(v) => *v = 42,
        Maybe::Nothing => {}
    }
    assert_eq!(x, Maybe::Just(42));

    let text = Maybe::Just("hello".to_string());
    let length = text.as_ref().map(|s| s.len());
    assert_eq!(length, Maybe::Just(5));
    assert_eq!(text, Maybe::Just("hello".to_string()));
}

#[test]
fn pairing_operations() {
    let y = Maybe::Just("hi");
    let z: Maybe<u8> = Maybe::Nothing;
    assert_eq!(Maybe::Just(1).zip(y), Maybe::Just((1, "hi")));
    assert_eq!(Maybe::Just(1).zip(z), Maybe::Nothing);
    assert_eq!(
        Maybe::Just(2).zip_with(Maybe::Just(3), |a, b| a * b),
        Maybe::Just(6)
    );
    assert_eq!(
        Maybe::Just(2).zip_with(Maybe::<i32>::Nothing, |a, b| a * b),
        Maybe::Nothing
    );
}

#[test]
fn conversions_and_default() {
    let opt: Option<u32> = Maybe::Just(7).into();
    assert_eq!(opt, Some(7));
    let none: Option<u32> = Maybe::<u32>::Nothing.into();
    assert_eq!(none, None);
    let d: Maybe<u32> = Default::default();
    assert_eq!(d, Maybe::Nothing);
    let seen = std::cell::Cell::new(0);
    let kept = Maybe::Just(3).inspect(|v| seen.set(*v));
    assert_eq!(kept, Maybe::Just(3));
    assert_eq!(seen.get(), 3);
}
