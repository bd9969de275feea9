//! Identifiers of players and rooms.

use vstd::prelude::*;

verus! {

/// A player, room or request identifier: the 128-bit value of a UUID.
pub type Uuid = u128;

/// The version and variant bits that mark a random UUID.
pub open spec fn is_random_uuid(id: Uuid) -> bool {
    &&& (id >> 76) & 0xf == 4
    &&& (id >> 62) & 0x3 == 2
}

/// The sixteen bytes of an identifier, most significant byte first.
pub open spec fn uuid_bytes(id: Uuid) -> Seq<u8> {
    Seq::new(16, |i: int| ((id >> ((8 * (15 - i)) as u128)) & 0xff) as u8)
}

/// Draws a fresh random identifier with `uuid::Uuid::new_v4`.
///
/// The value is random; what holds of each one is that its version and variant
/// bits are those of a random UUID.
#[verifier::external_body]
pub(crate) fn new_v4() -> (id: Uuid)
    ensures
        is_random_uuid(id),
{
    uuid::Uuid::new_v4().as_u128()
}

/// The bytes of an identifier, by `uuid::Uuid::into_bytes`: big-endian.
#[verifier::external_body]
pub(crate) fn into_bytes(id: Uuid) -> (bytes: [u8; 16])
    ensures
        bytes@ == uuid_bytes(id),
{
    uuid::Uuid::from_u128(id).into_bytes()
}

/// The identifier with the given bytes, by `uuid::Uuid::from_bytes`: big-endian.
#[verifier::external_body]
pub(crate) fn from_bytes(bytes: [u8; 16]) -> (id: Uuid)
    ensures
        uuid_bytes(id) == bytes@,
{
    uuid::Uuid::from_bytes(bytes).as_u128()
}

/// Distinct identifiers have distinct bytes.
pub proof fn uuid_bytes_injective(a: Uuid, b: Uuid)
    requires
        uuid_bytes(a) == uuid_bytes(b),
    ensures
        a == b,
{
    let s = uuid_bytes(a);
    let t = uuid_bytes(b);
    assert(s[0] == t[0] && s[1] == t[1] && s[2] == t[2] && s[3] == t[3]);
    assert(s[4] == t[4] && s[5] == t[5] && s[6] == t[6] && s[7] == t[7]);
    assert(s[8] == t[8] && s[9] == t[9] && s[10] == t[10] && s[11] == t[11]);
    assert(s[12] == t[12] && s[13] == t[13] && s[14] == t[14] && s[15] == t[15]);
    assert(a == b) by (bit_vector)
        requires
            ((a >> 120u128) & 0xff) as u8 == ((b >> 120u128) & 0xff) as u8,
            ((a >> 112u128) & 0xff) as u8 == ((b >> 112u128) & 0xff) as u8,
            ((a >> 104u128) & 0xff) as u8 == ((b >> 104u128) & 0xff) as u8,
            ((a >> 96u128) & 0xff) as u8 == ((b >> 96u128) & 0xff) as u8,
            ((a >> 88u128) & 0xff) as u8 == ((b >> 88u128) & 0xff) as u8,
            ((a >> 80u128) & 0xff) as u8 == ((b >> 80u128) & 0xff) as u8,
            ((a >> 72u128) & 0xff) as u8 == ((b >> 72u128) & 0xff) as u8,
            ((a >> 64u128) & 0xff) as u8 == ((b >> 64u128) & 0xff) as u8,
            ((a >> 56u128) & 0xff) as u8 == ((b >> 56u128) & 0xff) as u8,
            ((a >> 48u128) & 0xff) as u8 == ((b >> 48u128) & 0xff) as u8,
            ((a >> 40u128) & 0xff) as u8 == ((b >> 40u128) & 0xff) as u8,
            ((a >> 32u128) & 0xff) as u8 == ((b >> 32u128) & 0xff) as u8,
            ((a >> 24u128) & 0xff) as u8 == ((b >> 24u128) & 0xff) as u8,
            ((a >> 16u128) & 0xff) as u8 == ((b >> 16u128) & 0xff) as u8,
            ((a >> 8u128) & 0xff) as u8 == ((b >> 8u128) & 0xff) as u8,
            ((a >> 0u128) & 0xff) as u8 == ((b >> 0u128) & 0xff) as u8,
    ;
}

} // verus!
