use error::erase_then_recover;
use error::erase_then_recover_opaque;
use error::tag_of;
use error::Error;
use error::Extensions;
use error::IoError;
use error::IoMarker;
use error::ParseError;
use error::ParseErrorMarker;
use error::RawError;

#[test]
fn round_trip_io_value() {
    let recovered = erase_then_recover::<IoMarker, IoError>(IoError { code: 42 });
    assert_eq!(recovered, Some(IoError { code: 42 }));
    let recovered = erase_then_recover::<IoMarker, IoError>(IoError { code: 0 });
    assert_eq!(recovered, Some(IoError { code: 0 }));
}

#[test]
fn round_trip_io_value_through_opaque_handle() {
    let recovered = erase_then_recover_opaque::<IoMarker, IoError>(IoError { code: 200 });
    assert_eq!(recovered, Some(IoError { code: 200 }));
}

#[test]
fn lossy_parse_family_recovers_fixed_location() {
    // The parse family drops its payload on erasure, so only location 7
    // survives a round trip.
    let recovered = erase_then_recover::<ParseErrorMarker, ParseError>(ParseError { location: 9 });
    assert_eq!(recovered, Some(ParseError { location: 7 }));
    let recovered =
        erase_then_recover::<ParseErrorMarker, ParseError>(ParseError { location: 7 });
    assert_eq!(recovered, Some(ParseError { location: 7 }));
}

#[test]
fn tag_discrimination() {
    let raw: RawError<ParseErrorMarker> = RawError::new(None, None, None, None);
    assert!(raw.is::<ParseErrorMarker>());
    assert!(!raw.is::<IoMarker>());

    let v = IoError { code: 1 };
    assert!(v.is::<IoMarker>());
    assert!(!v.is::<ParseErrorMarker>());

    assert_eq!(tag_of::<ParseErrorMarker>(), tag_of::<ParseErrorMarker>());
    assert_ne!(tag_of::<ParseErrorMarker>(), tag_of::<IoMarker>());
    let a = tag_of::<ParseErrorMarker>();
    let b = tag_of::<IoMarker>();
    assert!(a < b || b < a);
}

#[test]
fn mismatched_recovery_is_silent_absence() {
    let raw: RawError<ParseErrorMarker> = RawError::new(Some("Parse-Error"), None, None, None);
    assert_eq!(raw.to::<IoError, IoMarker>(), None);

    let handle = RawError::<IoMarker>::new(Some("Io-Error"), None, None, None).to_abstract();
    assert_eq!(handle.recover::<ParseError, ParseErrorMarker>(), None);
}

#[test]
fn malformed_payload_is_silent_absence() {
    // Right family, but the payload the io family needs is missing.
    let raw: RawError<IoMarker> = RawError::new(Some("Io-Error"), None, None, None);
    assert_eq!(raw.to::<IoError, IoMarker>(), None);

    // Right family, payload present but empty.
    let empty = Extensions { tag: tag_of::<IoMarker>().code, data: Vec::new() };
    let raw: RawError<IoMarker> = RawError::new(Some("Io-Error"), None, Some(empty), None);
    assert_eq!(raw.to::<IoError, IoMarker>(), None);
}

#[test]
fn parse_error_behind_opaque_handle() {
    let v = ParseError { location: 7 };
    let handle = v.as_raw().to_abstract();
    assert_eq!(handle.recover::<ParseError, ParseErrorMarker>(), Some(ParseError { location: 7 }));

    let handle = v.as_raw().to_abstract();
    assert_eq!(handle.recover::<IoError, IoMarker>(), None);
}

#[test]
fn chained_cause_recovers_original() {
    let original = IoError { code: 5 };
    let a = original.as_raw();
    assert_eq!(a.extensions.as_ref().unwrap().data, vec![5]);

    let b: RawError<ParseErrorMarker> =
        RawError::new(Some("Parse-Error"), None, None, Some(Box::new(a.to_abstract())));
    let handle = b.to_abstract();

    // The cause chain below the head holds exactly one link.
    let names = handle.chain_descriptions();
    assert_eq!(names, vec!["Parse-Error", "Io-Error"]);
    assert!(matches!(handle.cause().unwrap().cause(), None));

    let cause = *handle.into_cause().unwrap();
    assert_eq!(cause.recover::<IoError, IoMarker>(), Some(original));
}

#[test]
fn generic_view_is_stable_across_erasure() {
    let raw: RawError<IoMarker> = RawError::new(
        Some("Io-Error"),
        Some(String::from("disk full")),
        None,
        None,
    );
    let handle = raw.to_abstract();
    assert_eq!(handle.description(), Some("Io-Error"));
    assert_eq!(handle.details(), &Some(String::from("disk full")));
    assert_eq!(handle.tag(), tag_of::<IoMarker>());
    assert!(matches!(handle.cause(), None));
}

#[test]
fn rendering_falls_back_to_placeholder() {
    let raw: RawError<ParseErrorMarker> = RawError::new(None, None, None, None);
    assert_eq!(raw.description_text(), "unknown error");
    let handle = raw.to_abstract();
    assert_eq!(handle.description_text(), "unknown error");
    assert_eq!(handle.chain_descriptions(), vec!["unknown error"]);
}

#[test]
fn chain_walk_visits_each_link_once() {
    let first: RawError<IoMarker> = RawError::new(Some("Io-Error"), None, None, None);
    let second: RawError<ParseErrorMarker> =
        RawError::new(None, None, None, Some(Box::new(first.to_abstract())));
    let third: RawError<IoMarker> =
        RawError::new(Some("Io-Error"), None, None, Some(Box::new(second.to_abstract())));

    let names = third.to_abstract().chain_descriptions();
    assert_eq!(names, vec!["Io-Error", "unknown error", "Io-Error"]);
}

#[test]
fn erasure_description_matches_family() {
    let parse = ParseError { location: 3 };
    let raw = parse.as_raw();
    assert_eq!(raw.description, Some("Parse-Error"));
    assert_eq!(raw.details, None);

    let io = IoError { code: 9 };
    let raw = io.as_raw();
    assert_eq!(raw.description, Some("Io-Error"));
    assert_eq!(raw.extensions.unwrap().data, vec![9]);
}
