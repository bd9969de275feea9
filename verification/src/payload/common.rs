//! Identifiers as they stand in a binary payload.

use vstd::prelude::*;
use vstd::std_specs::convert::FromSpecImpl;

use crate::ids::{from_bytes, into_bytes, uuid_bytes, uuid_bytes_injective, Uuid};

verus! {

/// An identifier as sixteen bytes, most significant first.
#[derive(Clone, Copy, Debug)]
pub struct UuidBytes(pub [u8; 16]);

/// The bytes of an identifier.
pub open spec fn bytes_of_uuid(id: Uuid) -> UuidBytes {
    choose|bytes: UuidBytes| bytes.0@ == uuid_bytes(id)
}

/// The identifier that bytes stand for.
pub open spec fn uuid_of_bytes(bytes: UuidBytes) -> Uuid {
    choose|id: Uuid| uuid_bytes(id) == bytes.0@
}

impl From<Uuid> for UuidBytes {
    fn from(value: Uuid) -> (bytes: Self)
        ensures
            bytes.0@ == uuid_bytes(value),
    {
        let bytes = UuidBytes(into_bytes(value));
        proof {
            let chosen = bytes_of_uuid(value);
            assert(chosen.0@ == bytes.0@);
            assert(chosen.0 =~= bytes.0);
        }
        bytes
    }
}

impl FromSpecImpl<Uuid> for UuidBytes {
    open spec fn obeys_from_spec() -> bool {
        true
    }

    open spec fn from_spec(value: Uuid) -> Self {
        bytes_of_uuid(value)
    }
}

impl From<UuidBytes> for Uuid {
    fn from(value: UuidBytes) -> (id: Self)
        ensures
            uuid_bytes(id) == value.0@,
    {
        let id = from_bytes(value.0);
        proof {
            uuid_bytes_injective(id, uuid_of_bytes(value));
        }
        id
    }
}

impl FromSpecImpl<UuidBytes> for Uuid {
    open spec fn obeys_from_spec() -> bool {
        true
    }

    open spec fn from_spec(value: UuidBytes) -> Self {
        uuid_of_bytes(value)
    }
}

/// An identifier survives the way into bytes and back.
pub proof fn law_uuid_round_trip(id: Uuid, bytes: UuidBytes, back: Uuid)
    requires
        bytes.0@ == uuid_bytes(id),
        uuid_bytes(back) == bytes.0@,
    ensures
        back == id,
{
    uuid_bytes_injective(back, id);
}

} // verus!
