use routing::error::{
    InterfaceError, ResponseError, RoutingCause, RoutingError, KIND_FAILED_TO_STORE_DATA,
};
use routing::wire::{write_u64_field, DecodeError, IDENTIFIER_TAG, RESPONSE_ERROR_TAG};

#[test]
fn error_chain_nested_cause() {
    let interface = InterfaceError::from(ResponseError::NoData);
    assert_eq!(interface, InterfaceError::Response(ResponseError::NoData));

    let routed = RoutingError::from(interface);
    match routed.cause() {
        Some(RoutingCause::Interface(inner)) => match inner.cause() {
            Some(cause) => assert_eq!(*cause, ResponseError::NoData),
            None => panic!("interface-level cause missing"),
        },
        _ => panic!("routing-level cause missing"),
    }
    assert_eq!(routed.nested_response(), Some(&ResponseError::NoData));

    let direct = RoutingError::from(ResponseError::NoData);
    assert_eq!(direct.nested_response(), Some(&ResponseError::NoData));
}

#[test]
fn leaf_errors_have_no_cause() {
    assert!(ResponseError::InvalidRequest.cause().is_none());
    assert!(InterfaceError::Abort.cause().is_none());
    assert!(RoutingError::BadAuthority.cause().is_none());
}

#[test]
fn descriptions_are_stable() {
    assert_eq!(ResponseError::NoData.description(), "No Data");
    assert_eq!(ResponseError::InvalidRequest.description(), "Invalid request");
    assert_eq!(
        ResponseError::FailedToStoreData(vec![1]).description(),
        "Failed to store data"
    );
    assert_eq!(InterfaceError::Abort.description(), "Aborted");
    assert_eq!(
        InterfaceError::Response(ResponseError::NoData).description(),
        "Invalid response"
    );
    assert_eq!(RoutingError::BadAuthority.description(), "Invalid authority");
    assert_eq!(RoutingError::RoutingTableEmpty.description(), "Routing table empty");
}

#[test]
fn display_strings_delegate_to_the_wrapped_failure() {
    assert_eq!(ResponseError::NoData.display_string(), "ResponseError::NoData");
    assert_eq!(
        InterfaceError::Response(ResponseError::NoData).display_string(),
        "ResponseError::NoData"
    );
    assert_eq!(
        RoutingError::Interface(InterfaceError::Abort).display_string(),
        "InterfaceError::Abort"
    );
    assert_eq!(
        RoutingError::Response(ResponseError::InvalidRequest).display_string(),
        "ResponseError::InvalidRequest"
    );
}

#[test]
fn io_and_serialisation_wrap_opaquely() {
    let io_wrapped = RoutingError::from(std::io::Error::new(std::io::ErrorKind::Other, "boom"));
    assert_eq!(io_wrapped.description(), "I/O error");
    assert!(matches!(io_wrapped.cause(), Some(RoutingCause::Io(_))));
    assert!(io_wrapped.nested_response().is_none());

    let ser_wrapped = RoutingError::from(DecodeError::Truncated);
    assert_eq!(ser_wrapped.description(), "Serialisation error");
    assert!(matches!(
        ser_wrapped.cause(),
        Some(RoutingCause::Serialisation(DecodeError::Truncated))
    ));
    assert!(ser_wrapped.nested_response().is_none());
}

#[test]
fn response_error_round_trips() {
    let cases = vec![
        ResponseError::NoData,
        ResponseError::InvalidRequest,
        ResponseError::FailedToStoreData(vec![1, 2, 3]),
    ];
    for e in cases {
        let wire = e.encode();
        assert_eq!(ResponseError::decode(&wire).unwrap(), e);
    }
}

#[test]
fn response_error_decode_failures() {
    assert_eq!(ResponseError::decode(&[]), Err(DecodeError::Truncated));

    let mut wrong_tag = Vec::new();
    write_u64_field(&mut wrong_tag, IDENTIFIER_TAG);
    write_u64_field(&mut wrong_tag, 1);
    wrong_tag.push(0);
    assert_eq!(ResponseError::decode(&wrong_tag), Err(DecodeError::TagMismatch));

    let mut unknown = Vec::new();
    write_u64_field(&mut unknown, RESPONSE_ERROR_TAG);
    write_u64_field(&mut unknown, 99);
    unknown.push(0);
    assert_eq!(ResponseError::decode(&unknown), Err(DecodeError::UnknownVariant));

    let mut missing = Vec::new();
    write_u64_field(&mut missing, RESPONSE_ERROR_TAG);
    write_u64_field(&mut missing, KIND_FAILED_TO_STORE_DATA);
    missing.push(0);
    assert_eq!(ResponseError::decode(&missing), Err(DecodeError::MissingPayload));

    let mut bad_marker = Vec::new();
    write_u64_field(&mut bad_marker, RESPONSE_ERROR_TAG);
    write_u64_field(&mut bad_marker, KIND_FAILED_TO_STORE_DATA);
    bad_marker.push(7);
    assert_eq!(ResponseError::decode(&bad_marker), Err(DecodeError::Malformed));
}
