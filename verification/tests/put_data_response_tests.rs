use routing::error::ResponseError;
use routing::name_type::{NameType, NAME_TYPE_LEN};
use routing::put_data_response::PutDataResponse;
use routing::wire::{write_u64_field, DecodeError, RESPONSE_ERROR_TAG};

#[test]
fn put_data_response_serialisation() {
    let obj_before = PutDataResponse {
        name: NameType::generate_random(),
        data: Ok(vec![1, 2, 3, 4]),
    };

    let wire = obj_before.encode();
    let obj_after = PutDataResponse::decode(&wire).unwrap();

    assert_eq!(obj_before, obj_after);
}

#[test]
fn message_round_trip_ok_payload() {
    let m = PutDataResponse {
        name: NameType([3u8; NAME_TYPE_LEN]),
        data: Ok(vec![10, 20, 30]),
    };
    let wire = m.encode();
    let after = PutDataResponse::decode(&wire).unwrap();
    assert_eq!(after, m);
    assert_eq!(after.data, Ok(vec![10, 20, 30]));
}

#[test]
fn message_round_trip_failed_store() {
    let rejected = vec![42u8; 10];
    let m = PutDataResponse {
        name: NameType([9u8; NAME_TYPE_LEN]),
        data: Err(ResponseError::FailedToStoreData(rejected.clone())),
    };
    let wire = m.encode();
    let after = PutDataResponse::decode(&wire).unwrap();
    assert_eq!(after, m);
    match after.data {
        Err(ResponseError::FailedToStoreData(d)) => assert_eq!(d, rejected),
        _ => panic!("failure outcome not preserved"),
    }
}

#[test]
fn message_round_trip_other_failures() {
    for e in [ResponseError::NoData, ResponseError::InvalidRequest] {
        let m = PutDataResponse {
            name: NameType::generate_random(),
            data: Err(e.clone()),
        };
        let wire = m.encode();
        let after = PutDataResponse::decode(&wire).unwrap();
        assert_eq!(after.data, Err(e));
        assert_eq!(after.name, m.name);
    }
}

#[test]
fn message_decode_failures() {
    assert_eq!(PutDataResponse::decode(&[]), Err(DecodeError::Truncated));

    let mut wrong_tag = Vec::new();
    write_u64_field(&mut wrong_tag, RESPONSE_ERROR_TAG);
    assert_eq!(PutDataResponse::decode(&wrong_tag), Err(DecodeError::TagMismatch));

    let good = PutDataResponse {
        name: NameType([1u8; NAME_TYPE_LEN]),
        data: Ok(vec![]),
    };
    let mut wire = good.encode();
    wire.truncate(wire.len() - 1);
    assert_eq!(PutDataResponse::decode(&wire), Err(DecodeError::Truncated));
}
