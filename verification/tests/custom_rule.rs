use typed_value::{Compose2, Property, Sequential, TypedValue, TypedValueExt};

// Rules written in ordinary Rust. The two functions that say what a rule means are never
// run, so they have no body to speak of.

#[derive(Debug)]
struct Stub;

impl Property for Stub {
    type Value = u8;
    type Error = ();

    fn holds(_: u8) -> bool {
        unreachable!()
    }

    fn describes(_: (), _: u8) -> bool {
        unreachable!()
    }

    fn validate(_: &u8) -> Result<(), ()> {
        Ok(())
    }
}

#[derive(Debug)]
struct AtMostNine;

impl Property for AtMostNine {
    type Value = u8;
    type Error = &'static str;

    fn holds(_: u8) -> bool {
        unreachable!()
    }

    fn describes(_: &'static str, _: u8) -> bool {
        unreachable!()
    }

    fn validate(value: &u8) -> Result<(), &'static str> {
        if *value <= 9 {
            Ok(())
        } else {
            Err("more than one digit")
        }
    }
}

#[derive(Debug)]
struct Even;

impl Property for Even {
    type Value = u8;
    type Error = &'static str;

    fn holds(_: u8) -> bool {
        unreachable!()
    }

    fn describes(_: &'static str, _: u8) -> bool {
        unreachable!()
    }

    fn validate(value: &u8) -> Result<(), &'static str> {
        if *value % 2 == 0 {
            Ok(())
        } else {
            Err("odd")
        }
    }
}

#[derive(Debug)]
struct MustNotBeAsked;

impl Property for MustNotBeAsked {
    type Value = u8;
    type Error = &'static str;

    fn holds(_: u8) -> bool {
        unreachable!()
    }

    fn describes(_: &'static str, _: u8) -> bool {
        unreachable!()
    }

    fn validate(_: &u8) -> Result<(), &'static str> {
        panic!("the second rule was asked about a value that the first had turned down")
    }
}

#[derive(Debug)]
struct AlwaysAsked;

impl Property for AlwaysAsked {
    type Value = u8;
    type Error = &'static str;

    fn holds(_: u8) -> bool {
        unreachable!()
    }

    fn describes(_: &'static str, _: u8) -> bool {
        unreachable!()
    }

    fn validate(_: &u8) -> Result<(), &'static str> {
        Err("asked")
    }
}

#[test]
fn equivalent_when_wrapped_and_then_unwrapped() {
    for value in 0..=u8::MAX {
        assert_eq!(*TypedValue::<Stub>::new(value).unwrap(), value)
    }
}

#[test]
fn second_rule_is_not_asked_after_a_failure() {
    let made = TypedValue::<Sequential<AtMostNine, MustNotBeAsked>>::new(10);
    assert_eq!(made.err(), Some("more than one digit"));
}

#[test]
fn second_rule_is_asked_after_a_success() {
    let made = TypedValue::<Sequential<AtMostNine, AlwaysAsked>>::new(9);
    assert_eq!(made.err(), Some("asked"));
    let made = TypedValue::<Sequential<AtMostNine, AlwaysAsked>>::new(10);
    assert_eq!(made.err(), Some("more than one digit"));
}

#[test]
fn rules_in_sequence_report_the_first_failure() {
    type SmallEven = TypedValue<Sequential<AtMostNine, Even>>;
    assert_eq!(*SmallEven::new(8).unwrap(), 8);
    assert_eq!(SmallEven::new(7).err(), Some("odd"));
    assert_eq!(SmallEven::new(11).err(), Some("more than one digit"));
    assert_eq!(SmallEven::new(12).err(), Some("more than one digit"));
}

#[test]
fn rules_side_by_side_report_every_failure() {
    type SmallEven = TypedValue<Compose2<AtMostNine, Even>>;
    assert_eq!(*SmallEven::new(8).unwrap(), 8);
    assert_eq!(SmallEven::new(7).err(), Some(vec!["odd"]));
    assert_eq!(SmallEven::new(12).err(), Some(vec!["more than one digit"]));
    assert_eq!(SmallEven::new(11).err(), Some(vec!["more than one digit", "odd"]));

    type EvenSmall = TypedValue<Compose2<Even, AtMostNine>>;
    assert_eq!(EvenSmall::new(11).err(), Some(vec!["odd", "more than one digit"]));
}

#[test]
fn a_value_wraps_itself() {
    let made: TypedValue<AtMostNine> = 5.typed().unwrap();
    assert_eq!(*made, 5);
    assert_eq!(10.typed::<AtMostNine>().err(), Some("more than one digit"));
}

// Rules whose reports are boxed errors of any kind.

#[derive(Debug)]
struct Digit;

impl Property for Digit {
    type Value = u8;
    type Error = Box<dyn std::error::Error>;

    fn holds(_: u8) -> bool {
        unreachable!()
    }

    fn describes(_: Box<dyn std::error::Error>, _: u8) -> bool {
        unreachable!()
    }

    fn validate(value: &u8) -> Result<(), Self::Error> {
        if *value <= 9 {
            Ok(())
        } else {
            Err(anyhow::Error::msg(format!("{} is no digit.", value)).into())
        }
    }
}

#[derive(Debug)]
struct Multiple<const N: u8>;

impl<const N: u8> Property for Multiple<N> {
    type Value = u8;
    type Error = Box<dyn std::error::Error>;

    fn holds(_: u8) -> bool {
        unreachable!()
    }

    fn describes(_: Box<dyn std::error::Error>, _: u8) -> bool {
        unreachable!()
    }

    fn validate(value: &u8) -> Result<(), Self::Error> {
        if *value % N == 0 {
            Ok(())
        } else {
            Err(anyhow::Error::msg(format!("{} is no multiple of {}.", value, N)).into())
        }
    }
}

fn messages(errors: Vec<Box<dyn std::error::Error>>) -> Vec<String> {
    errors.iter().map(|error| error.to_string()).collect()
}

#[test]
fn boxed_reports_are_gathered_side_by_side() {
    type DigitMultipleOfThree = TypedValue<Compose2<Digit, Multiple<3>>>;
    assert_eq!(*DigitMultipleOfThree::new(9).unwrap(), 9);
    assert_eq!(
        messages(DigitMultipleOfThree::new(8).unwrap_err()),
        vec!["8 is no multiple of 3."]
    );
    assert_eq!(messages(DigitMultipleOfThree::new(12).unwrap_err()), vec!["12 is no digit."]);
    assert_eq!(
        messages(DigitMultipleOfThree::new(10).unwrap_err()),
        vec!["10 is no digit.", "10 is no multiple of 3."]
    );
}

#[test]
fn boxed_reports_in_sequence_stop_at_the_first() {
    type DigitMultipleOfThree = TypedValue<Sequential<Digit, Multiple<3>>>;
    assert_eq!(*DigitMultipleOfThree::new(6).unwrap(), 6);
    assert_eq!(
        DigitMultipleOfThree::new(10).unwrap_err().to_string(),
        "10 is no digit."
    );
    assert_eq!(
        DigitMultipleOfThree::new(7).unwrap_err().to_string(),
        "7 is no multiple of 3."
    );
}
