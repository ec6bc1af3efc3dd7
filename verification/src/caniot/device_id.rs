use vstd::prelude::*;

use super::bits::{lemma_u8_pack3, lemma_u8_split3};
use super::error::ProtocolError;

verus! {

/// Identifier of a CANIOT device: a board class and a sub identifier,
/// each on 3 bits.
#[derive(Debug, Clone, Copy, PartialEq, Eq, Hash, PartialOrd, Ord, Structural)]
pub struct DeviceId {
    pub class: u8,
    pub sub_id: u8,
}

impl DeviceId {
    /// Both parts fit in 3 bits.
    pub open spec fn wf(self) -> bool {
        self.class < 8 && self.sub_id < 8
    }

    /// The 6-bit identifier: sub identifier in bits 3..6, class in bits 0..3.
    pub open spec fn spec_to_u8(self) -> u8 {
        ((self.sub_id << 3u8) | self.class) as u8
    }

    /// The identifier that addresses every device.
    pub fn broadcast() -> (r: DeviceId)
        ensures
            r.class == 7 && r.sub_id == 7,
    {
        DeviceId { class: 7, sub_id: 7 }
    }

    /// Builds an identifier from its class and sub identifier; both must fit in 3 bits.
    pub fn try_new(class: u8, sub_id: u8) -> (r: Result<DeviceId, ProtocolError>)
        ensures
            class > 7 || sub_id > 7 ==> r == Err::<DeviceId, ProtocolError>(
                ProtocolError::DeviceIdCreationError,
            ),
            class <= 7 && sub_id <= 7 ==> r == Ok::<DeviceId, ProtocolError>(
                DeviceId { class, sub_id },
            ),
    {
        if class > 7 || sub_id > 7 {
            Err(ProtocolError::DeviceIdCreationError)
        } else {
            Ok(DeviceId { class, sub_id })
        }
    }

    /// Decodes a 6-bit identifier; values above 0x3f are refused.
    pub fn try_from_u8(did: u8) -> (r: Result<DeviceId, ProtocolError>)
        ensures
            did > 0x3f ==> r == Err::<DeviceId, ProtocolError>(
                ProtocolError::DeviceIdCreationError,
            ),
            did <= 0x3f ==> r == Ok::<DeviceId, ProtocolError>(
                DeviceId { class: did % 8, sub_id: did / 8 },
            ),
    {
        if did > 0x3f {
            Err(ProtocolError::DeviceIdCreationError)
        } else {
            proof {
                lemma_u8_split3(did);
            }
            Ok(DeviceId { class: did & 0x7, sub_id: (did >> 3) & 0x7 })
        }
    }

    /// Decodes a 6-bit identifier known to be valid.
    pub fn from_u8(did: u8) -> (r: DeviceId)
        requires
            did <= 0x3f,
        ensures
            r == (DeviceId { class: did % 8, sub_id: did / 8 }),
            r.wf(),
    {
        proof {
            lemma_u8_split3(did);
        }
        DeviceId { class: did & 0x7, sub_id: (did >> 3) & 0x7 }
    }

    /// Encodes the identifier on 6 bits.
    pub fn to_u8(&self) -> (r: u8)
        ensures
            r == self.spec_to_u8(),
            self.wf() ==> r == self.sub_id * 8 + self.class,
    {
        proof {
            if self.wf() {
                lemma_u8_pack3(self.class, self.sub_id);
            }
        }
        (self.sub_id << 3) | self.class
    }

    /// Same as [`DeviceId::to_u8`].
    pub fn get_did(&self) -> (r: u8)
        ensures
            r == self.spec_to_u8(),
            self.wf() ==> r == self.sub_id * 8 + self.class,
    {
        self.to_u8()
    }

    /// Whether this is the broadcast identifier.
    pub fn is_broadcast(&self) -> (r: bool)
        ensures
            r == (self.class == 7 && self.sub_id == 7),
    {
        self.class == 7 && self.sub_id == 7
    }
}

/// Encoding a valid identifier and decoding it again gives it back, and a
/// decoded 6-bit value encodes back to itself.
pub proof fn lemma_device_id_roundtrip(d: DeviceId, did: u8)
    requires
        d.wf(),
        did <= 0x3f,
    ensures
        d.spec_to_u8() <= 0x3f,
        d.spec_to_u8() % 8 == d.class && d.spec_to_u8() / 8 == d.sub_id,
        (DeviceId { class: did % 8, sub_id: did / 8 }).wf(),
        (DeviceId { class: did % 8, sub_id: did / 8 }).spec_to_u8() == did,
{
    lemma_u8_pack3(d.class, d.sub_id);
    lemma_u8_pack3(did % 8, did / 8);
}

} // verus!
