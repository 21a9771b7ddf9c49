use randolib::error::Error;
use randolib::my_result::MyResult;

#[test]
fn success_queries() {
    let r = MyResult::<u8, Error>::Success(7);
    assert!(r.is_ok());
    assert!(!r.is_err());
    assert_eq!(r.unwrap(), 7);
}

#[test]
fn failure_queries() {
    let r = MyResult::<u8, Error>::Failure(Error::ConsecutiveRandom);
    assert!(!r.is_ok());
    assert!(r.is_err());
    assert_eq!(r.unwrap_err(), Error::ConsecutiveRandom);
}

#[test]
fn success_converts_to_ok() {
    let r: Result<char, Error> = MyResult::Success('a').into();
    assert_eq!(r, Ok('a'));
}

#[test]
fn failure_converts_to_err() {
    let r: Result<char, Error> = MyResult::Failure(Error::ConsecutiveRandom).into();
    assert_eq!(r, Err(Error::ConsecutiveRandom));
}

fn propagate(m: MyResult<u8, Error>) -> Result<u8, Error> {
    let v = Into::<Result<_, _>>::into(m)?;
    Ok(v + 1)
}

#[test]
fn conversion_works_with_question_mark() {
    assert_eq!(propagate(MyResult::Success(1)), Ok(2));
    assert_eq!(propagate(MyResult::Failure(Error::ConsecutiveRandom)), Err(Error::ConsecutiveRandom));
}

#[test]
fn debug_format_names_the_variant() {
    assert_eq!(format!("{:?}", MyResult::<u8, Error>::Success(3)), "Success(3)");
    assert_eq!(
        format!("{:?}", MyResult::<u8, Error>::Failure(Error::ConsecutiveRandom)),
        "Failure(ConsecutiveRandom)"
    );
}

#[test]
fn error_message_text() {
    assert_eq!(Error::ConsecutiveRandom.message(), "two consecutive random values found");
}
