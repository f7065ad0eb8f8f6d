use serde_dyn::{uuid_from_bytes, TypeUuid, TypeUuidDynamic};

#[test]
fn uuid_from_bytes_reads_big_endian() {
    assert_eq!(uuid_from_bytes(&[0; 16]), 0);
    assert_eq!(uuid_from_bytes(&[0xff; 16]), u128::MAX);
    assert_eq!(
        uuid_from_bytes(&[0, 0, 0, 0, 0, 0, 0, 0, 0, 0, 0, 0, 0, 0, 1, 2]),
        258
    );
    assert_eq!(
        uuid_from_bytes(&[1, 0, 0, 0, 0, 0, 0, 0, 0, 0, 0, 0, 0, 0, 0, 0]),
        1u128 << 120
    );
    assert_eq!(
        uuid_from_bytes(&[
            0x6d, 0xd1, 0xba, 0x7e, 0xfa, 0x8b, 0x4a, 0xa1, 0xac, 0x22, 0xc2, 0x87, 0x73, 0x79,
            0x89, 0x75,
        ]),
        0x6dd1ba7e_fa8b_4aa1_ac22_c28773798975
    );
}

#[test]
fn uuid_from_bytes_agrees_with_std() {
    let samples: [[u8; 16]; 4] = [
        [1, 2, 3, 4, 5, 6, 7, 8, 9, 10, 11, 12, 13, 14, 15, 16],
        [0x80, 0, 0, 0, 0, 0, 0, 0, 0, 0, 0, 0, 0, 0, 0, 0x01],
        [0xd4, 0xad, 0xfc, 0x76, 0xf5, 0xf4, 0x40, 0xb0, 0x8e, 0x28, 0x8a, 0x51, 0xa1, 0x2f, 0x5e, 0x46],
        [0, 0xff, 0, 0xff, 0, 0xff, 0, 0xff, 0, 0xff, 0, 0xff, 0, 0xff, 0, 0xff],
    ];
    for bytes in samples {
        assert_eq!(uuid_from_bytes(&bytes), u128::from_be_bytes(bytes));
    }
}

#[test]
fn uuid_from_bytes_keeps_distinct_bytes_distinct() {
    let mut one = [7u8; 16];
    let other = one;
    for at in 0..16 {
        one[at] = 8;
        assert_ne!(uuid_from_bytes(&one), uuid_from_bytes(&other));
        one[at] = 7;
    }
}

#[test]
fn declared_identifiers_have_their_values() {
    assert_eq!(<bool as TypeUuid>::UUID, 0xabea8c1e_6910_43e4_b579_9ef1b5a95226);
    assert_eq!(<i32 as TypeUuid>::UUID, 0x6dd1ba7e_fa8b_4aa1_ac22_c28773798975);
    assert_eq!(<u128 as TypeUuid>::UUID, 0x46eaab86_9268_4e98_ac9f_76eb71a1f0b4);
    assert_eq!(<String as TypeUuid>::UUID, 0x7edbc10a_2147_499c_af9a_498723c7b35f);
    assert_eq!(<() as TypeUuid>::UUID, 0x03748d1a_0d0c_472f_9fdd_424856157064);
}

#[test]
fn declared_identifiers_are_those_of_type_uuid() {
    assert_eq!(uuid_from_bytes(&<bool as type_uuid::TypeUuid>::UUID), <bool as TypeUuid>::UUID);
    assert_eq!(uuid_from_bytes(&<isize as type_uuid::TypeUuid>::UUID), <isize as TypeUuid>::UUID);
    assert_eq!(uuid_from_bytes(&<i8 as type_uuid::TypeUuid>::UUID), <i8 as TypeUuid>::UUID);
    assert_eq!(uuid_from_bytes(&<i16 as type_uuid::TypeUuid>::UUID), <i16 as TypeUuid>::UUID);
    assert_eq!(uuid_from_bytes(&<i32 as type_uuid::TypeUuid>::UUID), <i32 as TypeUuid>::UUID);
    assert_eq!(uuid_from_bytes(&<i64 as type_uuid::TypeUuid>::UUID), <i64 as TypeUuid>::UUID);
    assert_eq!(uuid_from_bytes(&<i128 as type_uuid::TypeUuid>::UUID), <i128 as TypeUuid>::UUID);
    assert_eq!(uuid_from_bytes(&<usize as type_uuid::TypeUuid>::UUID), <usize as TypeUuid>::UUID);
    assert_eq!(uuid_from_bytes(&<u8 as type_uuid::TypeUuid>::UUID), <u8 as TypeUuid>::UUID);
    assert_eq!(uuid_from_bytes(&<u16 as type_uuid::TypeUuid>::UUID), <u16 as TypeUuid>::UUID);
    assert_eq!(uuid_from_bytes(&<u32 as type_uuid::TypeUuid>::UUID), <u32 as TypeUuid>::UUID);
    assert_eq!(uuid_from_bytes(&<u64 as type_uuid::TypeUuid>::UUID), <u64 as TypeUuid>::UUID);
    assert_eq!(uuid_from_bytes(&<u128 as type_uuid::TypeUuid>::UUID), <u128 as TypeUuid>::UUID);
    assert_eq!(uuid_from_bytes(&<char as type_uuid::TypeUuid>::UUID), <char as TypeUuid>::UUID);
    assert_eq!(uuid_from_bytes(&<String as type_uuid::TypeUuid>::UUID), <String as TypeUuid>::UUID);
    assert_eq!(uuid_from_bytes(&<() as type_uuid::TypeUuid>::UUID), <() as TypeUuid>::UUID);
}

#[test]
fn declared_identifiers_are_distinct() {
    let all = [
        <bool as TypeUuid>::UUID,
        <isize as TypeUuid>::UUID,
        <i8 as TypeUuid>::UUID,
        <i16 as TypeUuid>::UUID,
        <i32 as TypeUuid>::UUID,
        <i64 as TypeUuid>::UUID,
        <i128 as TypeUuid>::UUID,
        <usize as TypeUuid>::UUID,
        <u8 as TypeUuid>::UUID,
        <u16 as TypeUuid>::UUID,
        <u32 as TypeUuid>::UUID,
        <u64 as TypeUuid>::UUID,
        <u128 as TypeUuid>::UUID,
        <char as TypeUuid>::UUID,
        <String as TypeUuid>::UUID,
        <() as TypeUuid>::UUID,
    ];
    for left in 0..all.len() {
        for right in 0..left {
            assert_ne!(all[left], all[right]);
        }
    }
}

struct Sample;

impl TypeUuid for Sample {
    const UUID: u128 = 0xd4adfc76_f5f4_40b0_8e28_8a51a12f5e46;
}

#[test]
fn dynamic_identifier_is_the_declared_one() {
    assert_eq!(5i32.uuid(), <i32 as TypeUuid>::UUID);
    assert_eq!(String::from("text").uuid(), <String as TypeUuid>::UUID);
    assert_eq!(Sample.uuid(), 0xd4adfc76_f5f4_40b0_8e28_8a51a12f5e46);
    assert_ne!(true.uuid(), 1u8.uuid());
}

#[test]
fn dynamic_identifier_through_trait_object() {
    let objects: Vec<Box<dyn TypeUuidDynamic>> =
        vec![Box::new(5i32), Box::new(true), Box::new(Sample)];
    let identifiers: Vec<u128> = objects.iter().map(|object| object.uuid()).collect();
    assert_eq!(
        identifiers,
        vec![
            <i32 as TypeUuid>::UUID,
            <bool as TypeUuid>::UUID,
            <Sample as TypeUuid>::UUID,
        ]
    );
}
