//! Type identifiers: the 128-bit value that a registrable type declares once,
//! at compile time, and under which its adapter is filed.

use vstd::prelude::*;

verus! {

/// A statically declared, 128-bit identifier for a type.
///
/// Every type filed in one registry needs a value of its own. Take it from a
/// randomly generated UUID, so that types written independently do not collide.
/// Nothing verifies that two types differ in their identifiers: a registry
/// compares the values and never looks at their format.
pub trait TypeUuid {
    const UUID: u128;
}

/// Reads the identifier of a value's type from the value, so that it can be
/// had without naming the type. Implemented for every type with a [`TypeUuid`];
/// there is no reason to implement it by hand.
pub trait TypeUuidDynamic {
    /// The identifier that `uuid` returns.
    spec fn declared_uuid(&self) -> u128;

    fn uuid(&self) -> (id: u128)
        ensures
            id == self.declared_uuid(),
    ;
}

impl<T: TypeUuid> TypeUuidDynamic for T {
    open spec fn declared_uuid(&self) -> u128 {
        T::UUID
    }

    fn uuid(&self) -> (id: u128) {
        Self::UUID
    }
}

// Identifiers of the primitive and standard types. Each is the UUID that the
// `type-uuid` crate assigns to the same type, read as one big-endian number.
impl TypeUuid for bool {
    const UUID: u128 = 0xabea8c1e_6910_43e4_b579_9ef1b5a95226;
}

impl TypeUuid for isize {
    const UUID: u128 = 0x0d3b0c08_45ff_43f4_a145_b2bdef69d1d2;
}

impl TypeUuid for i8 {
    const UUID: u128 = 0x92fd5f7b_2102_46cb_9b1b_662df636625a;
}

impl TypeUuid for i16 {
    const UUID: u128 = 0xa02dfda1_8603_4d69_818a_1e1c47b154b6;
}

impl TypeUuid for i32 {
    const UUID: u128 = 0x6dd1ba7e_fa8b_4aa1_ac22_c28773798975;
}

impl TypeUuid for i64 {
    const UUID: u128 = 0x3103622f_fdfa_4ae3_8ede_67b56bd332fd;
}

impl TypeUuid for i128 {
    const UUID: u128 = 0x0dbb7b33_9f27_4b3f_aebc_11426c464323;
}

impl TypeUuid for usize {
    const UUID: u128 = 0x1d4562ce_b27d_4e99_af44_a40aca248c2e;
}

impl TypeUuid for u8 {
    const UUID: u128 = 0xb0fe47a9_fd37_41c6_b2ab_bed5d385ccde;
}

impl TypeUuid for u16 {
    const UUID: u128 = 0x3ad2a84b_c5a6_414c_8628_75613e11e67e;
}

impl TypeUuid for u32 {
    const UUID: u128 = 0xf6cc80b8_94e8_4c05_80b1_a8fbbaeb67af;
}

impl TypeUuid for u64 {
    const UUID: u128 = 0xda9a3e45_516c_4412_87d2_96ea17bebd21;
}

impl TypeUuid for u128 {
    const UUID: u128 = 0x46eaab86_9268_4e98_ac9f_76eb71a1f0b4;
}

impl TypeUuid for char {
    const UUID: u128 = 0x9786a9f4_1195_4dd1_875d_3e469454d9c4;
}

impl TypeUuid for String {
    const UUID: u128 = 0x7edbc10a_2147_499c_af9a_498723c7b35f;
}

impl TypeUuid for () {
    const UUID: u128 = 0x03748d1a_0d0c_472f_9fdd_424856157064;
}

/// The identifiers that this module declares for the primitive and standard
/// types, as numbers.
pub proof fn lemma_standard_identifiers()
    ensures
        <bool as TypeUuid>::UUID == 0xabea8c1e_6910_43e4_b579_9ef1b5a95226u128,
        <isize as TypeUuid>::UUID == 0x0d3b0c08_45ff_43f4_a145_b2bdef69d1d2u128,
        <i8 as TypeUuid>::UUID == 0x92fd5f7b_2102_46cb_9b1b_662df636625au128,
        <i16 as TypeUuid>::UUID == 0xa02dfda1_8603_4d69_818a_1e1c47b154b6u128,
        <i32 as TypeUuid>::UUID == 0x6dd1ba7e_fa8b_4aa1_ac22_c28773798975u128,
        <i64 as TypeUuid>::UUID == 0x3103622f_fdfa_4ae3_8ede_67b56bd332fdu128,
        <i128 as TypeUuid>::UUID == 0x0dbb7b33_9f27_4b3f_aebc_11426c464323u128,
        <usize as TypeUuid>::UUID == 0x1d4562ce_b27d_4e99_af44_a40aca248c2eu128,
        <u8 as TypeUuid>::UUID == 0xb0fe47a9_fd37_41c6_b2ab_bed5d385ccdeu128,
        <u16 as TypeUuid>::UUID == 0x3ad2a84b_c5a6_414c_8628_75613e11e67eu128,
        <u32 as TypeUuid>::UUID == 0xf6cc80b8_94e8_4c05_80b1_a8fbbaeb67afu128,
        <u64 as TypeUuid>::UUID == 0xda9a3e45_516c_4412_87d2_96ea17bebd21u128,
        <u128 as TypeUuid>::UUID == 0x46eaab86_9268_4e98_ac9f_76eb71a1f0b4u128,
        <char as TypeUuid>::UUID == 0x9786a9f4_1195_4dd1_875d_3e469454d9c4u128,
        <String as TypeUuid>::UUID == 0x7edbc10a_2147_499c_af9a_498723c7b35fu128,
        <() as TypeUuid>::UUID == 0x03748d1a_0d0c_472f_9fdd_424856157064u128,
{
}

/// The number that `bytes` spell in base 256, most significant byte first.
pub open spec fn big_endian_value(bytes: Seq<u8>) -> nat
    decreases bytes.len(),
{
    if bytes.len() == 0 {
        0
    } else {
        256 * big_endian_value(bytes.drop_last()) + bytes.last() as nat
    }
}

/// One more than the largest number that `len` bytes can spell: 256 to the `len`.
pub open spec fn radix_power(len: nat) -> nat
    decreases len,
{
    if len == 0 {
        1
    } else {
        256 * radix_power((len - 1) as nat)
    }
}

/// `len` bytes spell a number below 256 to the `len`.
pub proof fn lemma_big_endian_value_bound(bytes: Seq<u8>)
    ensures
        big_endian_value(bytes) < radix_power(bytes.len()),
    decreases bytes.len(),
{
    if bytes.len() > 0 {
        lemma_big_endian_value_bound(bytes.drop_last());
    }
}

/// Two byte strings of one length that spell the same number are the same
/// string: distinct identifiers in byte form stay distinct as registry keys.
pub proof fn lemma_big_endian_value_injective(a: Seq<u8>, b: Seq<u8>)
    requires
        a.len() == b.len(),
        big_endian_value(a) == big_endian_value(b),
    ensures
        a == b,
    decreases a.len(),
{
    if a.len() > 0 {
        let high_a = big_endian_value(a.drop_last());
        let high_b = big_endian_value(b.drop_last());
        assert(256 * high_a + a.last() as nat == 256 * high_b + b.last() as nat);
        assert(high_a == high_b && a.last() == b.last()) by {
            if high_a < high_b {
                assert(256 * high_a + 256 <= 256 * high_b);
            } else if high_b < high_a {
                assert(256 * high_b + 256 <= 256 * high_a);
            }
        }
        lemma_big_endian_value_injective(a.drop_last(), b.drop_last());
        assert(a =~= a.drop_last().push(a.last()));
        assert(b =~= b.drop_last().push(b.last()));
    } else {
        assert(a =~= b);
    }
}

/// The registry key for an identifier given in the byte form of the
/// `type-uuid` crate: its sixteen bytes read as one big-endian number, so that
/// the UUID `6dd1ba7e-...` becomes `0x6dd1ba7e...`.
pub fn uuid_from_bytes(bytes: &type_uuid::Bytes) -> (uuid: u128)
    ensures
        uuid as nat == big_endian_value(bytes@),
{
    let mut uuid: u128 = 0;
    let mut read: usize = 0;
    while read < 16
        invariant
            read <= 16,
            bytes@.len() == 16,
            uuid as nat == big_endian_value(bytes@.take(read as int)),
        decreases 16 - read,
    {
        let byte: u8 = bytes[read];
        proof {
            let prefix = bytes@.take(read as int);
            let longer = bytes@.take(read as int + 1);
            assert(longer.drop_last() =~= prefix);
            assert(longer.last() == byte);
            lemma_big_endian_value_bound(longer);
            reveal_with_fuel(radix_power, 17);
            assert(radix_power(longer.len()) <= radix_power(16)) by {
                lemma_radix_power_monotonic(longer.len(), 16);
            }
            assert(radix_power(16) == 0x1_0000_0000_0000_0000_0000_0000_0000_0000);
        }
        uuid = uuid * 256 + byte as u128;
        read = read + 1;
    }
    proof {
        assert(bytes@.take(16) =~= bytes@);
    }
    uuid
}

/// 256 to the `len` does not shrink as `len` grows.
pub proof fn lemma_radix_power_monotonic(shorter: nat, longer: nat)
    requires
        shorter <= longer,
    ensures
        radix_power(shorter) <= radix_power(longer),
    decreases longer,
{
    if shorter < longer {
        lemma_radix_power_monotonic(shorter, (longer - 1) as nat);
    }
}

} // verus!
