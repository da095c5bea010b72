//! Security levels and the backend identities derived from them.

use vstd::prelude::*;
use vstd::std_specs::convert::FromSpecImpl;

verus! {

/// The capability tier of a hardware security backend, as the backend
/// protocol numbers it.
#[derive(Clone, Copy, Debug, PartialEq, Eq, Hash, Structural)]
pub struct SecurityLevel(pub i32);

/// The number of the level whose keys live in ordinary process memory.
pub const SOFTWARE: i32 = 0;

/// The number of the level whose keys live in a trusted execution
/// environment.
pub const TRUSTED_ENVIRONMENT: i32 = 1;

/// The number of the level whose keys live in an isolated secure element.
pub const STRONGBOX: i32 = 2;

/// The number of the level that stands for the key-management daemon itself.
pub const KEYSTORE: i32 = 100;

/// The identity of one backend instance: sixteen bytes, read as one
/// big-endian number.
#[derive(Clone, Copy, Debug, PartialEq, Eq, Hash, Structural)]
pub struct Uuid(pub u128);

/// The 128-bit two's complement pattern of a level's number.
pub open spec fn sign_extended(code: i32) -> u128 {
    if code >= 0 {
        code as u128
    } else {
        (0x1_0000_0000_0000_0000_0000_0000_0000_0000 + code) as u128
    }
}

impl Uuid {
    /// The identity that a level's backend is given: the level's number,
    /// sign-extended to 128 bits.
    pub open spec fn of_level(level: SecurityLevel) -> Uuid {
        Uuid(sign_extended(level.0))
    }
}

impl From<SecurityLevel> for Uuid {
    /// The identity of the backend that serves `level`.
    fn from(level: SecurityLevel) -> (uuid: Uuid) {
        if level.0 >= 0 {
            Uuid(level.0 as u128)
        } else {
            let below: i32 = -(level.0 + 1);
            Uuid(u128::MAX - (below as u128))
        }
    }
}

impl FromSpecImpl<SecurityLevel> for Uuid {
    open spec fn obeys_from_spec() -> bool {
        true
    }

    open spec fn from_spec(level: SecurityLevel) -> Uuid {
        Uuid::of_level(level)
    }
}

/// Two levels never share an identity.
pub proof fn lemma_identity_is_one_to_one(a: SecurityLevel, b: SecurityLevel)
    ensures
        Uuid::of_level(a) == Uuid::of_level(b) <==> a == b,
{
}

} // verus!
