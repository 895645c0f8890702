use error::Marker;
use error::ParseError;
use error::ParseErrorMarker;
use error::RawError;

#[test]
fn test_convert_from_raw() {
    let raw: RawError<ParseErrorMarker> = RawError::new(None, None, None, None);

    let parse = raw.to::<ParseError, ParseErrorMarker>().unwrap();

    assert_eq!(parse, ParseError { location: 7 });
}

#[test]
fn test_convert_to_raw() {
    let parse = ParseError { location: 10 };
    assert_eq!(RawError::convert(&parse).unwrap().description, Some("Parse-Error"));
}

fn produce_parse_error() -> RawError<ParseErrorMarker> {
    RawError::new(None, None, None, None)
}

fn generic_handler<T: Marker>(raw: RawError<T>) {
    let parse = raw.to::<ParseError, ParseErrorMarker>().unwrap();
    assert_eq!(parse, ParseError { location: 7 });
}

#[test]
fn test_generic() {
    generic_handler(produce_parse_error())
}
