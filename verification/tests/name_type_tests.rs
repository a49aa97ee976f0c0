use routing::name_type::{convert_to_array, NameType, NAME_TYPE_LEN};
use routing::wire::{write_bytes_field, write_u64_field, DecodeError, IDENTIFIER_TAG};

#[test]
fn name_type_validity_assertion() {
    assert!(NameType([1u8; NAME_TYPE_LEN]).is_valid());
    assert!(!NameType([0u8; NAME_TYPE_LEN]).is_valid());
}

#[test]
fn copy_strings_to_bad_array() {
    let one = "some string".to_string();
    let two = "some two".to_string();

    let mut data = Vec::<String>::with_capacity(2);
    data.push(one);
    data.push(two);

    let data2 = data.clone();
    assert!(convert_to_array(data2, 1).is_none());
    assert!(convert_to_array(data, 3).is_none());
}

#[test]
fn convert_to_array_exact_size() {
    let mut data = Vec::<usize>::new();
    data.push(1);
    data.push(2);
    assert_eq!(convert_to_array(data, 2), Some(vec![1, 2]));
}

#[test]
fn name_type_equal_assertion() {
    let type1 = NameType::generate_random();
    let type1_clone = type1.clone();
    let type2 = NameType::generate_random();
    assert_eq!(type1, type1_clone);
    assert!(type1 == type1_clone);
    assert!(!(type1 != type1_clone));
    assert!(type1 != type2);
}

#[test]
fn closer_to_target() {
    let obj0 = NameType::generate_random();
    let obj0_clone = obj0.clone();
    let obj1 = NameType::generate_random();
    assert!(NameType::closer_to_target(&obj0_clone, &obj1, &obj0));
    assert!(!NameType::closer_to_target(&obj1, &obj0_clone, &obj0));
}

#[test]
fn closer_to_target_antisymmetry() {
    let a = NameType::generate_random();
    let b = NameType::generate_random();
    let t = NameType::generate_random();
    let ab = NameType::closer_to_target(&a, &b, &t);
    let ba = NameType::closer_to_target(&b, &a, &t);
    assert!(!(ab && ba));
    assert!(!NameType::closer_to_target(&a, &a, &t));
}

#[test]
fn construct_raw_bytes_round_trip() {
    let mut bytes = [0u8; NAME_TYPE_LEN];
    let mut i: usize = 0;
    while i < NAME_TYPE_LEN {
        bytes[i] = i as u8;
        i += 1;
    }
    assert_eq!(NameType::new(bytes).get_id(), bytes);
}

#[test]
fn serialisation_name_type() {
    let obj_before = NameType::generate_random();
    let bytes = obj_before.encode();
    let obj_after = NameType::decode(&bytes).unwrap();
    assert_eq!(obj_before, obj_after);
}

#[test]
fn wire_round_trip_many_random() {
    let mut n: usize = 0;
    while n < 100 {
        let id = NameType::generate_random();
        let wire = id.encode();
        assert_eq!(NameType::decode(&wire).unwrap(), id);
        n += 1;
    }
}

#[test]
fn encoding_is_framed() {
    let id = NameType([5u8; NAME_TYPE_LEN]);
    let wire = id.encode();
    assert_ne!(wire, id.get_id().to_vec());
    assert!(wire.len() > NAME_TYPE_LEN);
}

#[test]
fn malformed_identifier_size_mismatch() {
    let mut wire = Vec::new();
    write_u64_field(&mut wire, IDENTIFIER_TAG);
    write_bytes_field(&mut wire, &[7u8; 63]);
    assert_eq!(NameType::decode(&wire), Err(DecodeError::SizeMismatch));

    let mut wide = Vec::new();
    write_u64_field(&mut wide, IDENTIFIER_TAG);
    write_bytes_field(&mut wide, &[7u8; 65]);
    assert_eq!(NameType::decode(&wide), Err(DecodeError::SizeMismatch));
}

#[test]
fn identifier_tag_is_validated() {
    let mut wire = Vec::new();
    write_u64_field(&mut wire, IDENTIFIER_TAG + 1);
    write_bytes_field(&mut wire, &[7u8; 64]);
    assert_eq!(NameType::decode(&wire), Err(DecodeError::TagMismatch));
}

#[test]
fn identifier_truncated_input() {
    assert_eq!(NameType::decode(&[1u8, 2, 3]), Err(DecodeError::Truncated));
    let mut wire = Vec::new();
    write_u64_field(&mut wire, IDENTIFIER_TAG);
    assert_eq!(NameType::decode(&wire), Err(DecodeError::Truncated));
}

#[test]
fn closer_to_target_first_difference_decides() {
    let target = NameType([0u8; NAME_TYPE_LEN]);
    let mut a_bytes = [0u8; NAME_TYPE_LEN];
    let mut b_bytes = [0u8; NAME_TYPE_LEN];
    a_bytes[1] = 1;
    b_bytes[1] = 2;
    let a = NameType(a_bytes);
    let b = NameType(b_bytes);
    assert!(NameType::closer_to_target(&a, &b, &target));
    assert!(!NameType::closer_to_target(&b, &a, &target));

    a_bytes[0] = 9;
    b_bytes[0] = 1;
    let a = NameType(a_bytes);
    let b = NameType(b_bytes);
    assert!(!NameType::closer_to_target(&a, &b, &target));
    assert!(NameType::closer_to_target(&b, &a, &target));
}

#[test]
fn validity_single_nonzero_byte() {
    let mut bytes = [0u8; NAME_TYPE_LEN];
    bytes[NAME_TYPE_LEN - 1] = 1;
    assert!(NameType(bytes).is_valid());
}
