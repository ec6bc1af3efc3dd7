use vstd::prelude::*;
use vstd::slice::slice_to_vec;

use super::error::ProtocolError;

verus! {

/// The kinds of payload carried by CANIOT frames, each with its maximum size in bytes.
pub trait PayloadType {
    /// Maximum number of bytes of a payload of this kind.
    spec fn spec_max_size() -> nat;

    /// Maximum number of bytes of a payload of this kind.
    fn max_size() -> (r: usize)
        ensures
            r as nat == Self::spec_max_size(),
            r <= 8,
    ;
}

/// Payload of a command frame (up to 8 bytes).
#[derive(Debug, Clone, Copy, PartialEq, Eq)]
pub struct Cd;

/// Payload of a board-class command (up to 7 bytes, the 8th being the system byte).
#[derive(Debug, Clone, Copy, PartialEq, Eq)]
pub struct ClCd;

/// Payload of a telemetry frame (up to 8 bytes).
#[derive(Debug, Clone, Copy, PartialEq, Eq)]
pub struct Ty;

impl PayloadType for Cd {
    open spec fn spec_max_size() -> nat {
        8
    }

    fn max_size() -> (r: usize) {
        8
    }
}

impl PayloadType for ClCd {
    open spec fn spec_max_size() -> nat {
        7
    }

    fn max_size() -> (r: usize) {
        7
    }
}

impl PayloadType for Ty {
    open spec fn spec_max_size() -> nat {
        8
    }

    fn max_size() -> (r: usize) {
        8
    }
}

/// A frame payload of kind `K`: at most `K::max_size()` bytes.
#[derive(Debug)]
pub struct Payload<K: PayloadType> {
    data: Vec<u8>,
    marker: core::marker::PhantomData<K>,
}

impl<K: PayloadType> Clone for Payload<K> {
    fn clone(&self) -> (r: Self)
        ensures
            r@ == self@,
    {
        proof {
            use_type_invariant(self);
        }
        let data = self.data.clone();
        proof {
            assert(data@ =~= self.data@);
        }
        Payload { data, marker: core::marker::PhantomData }
    }
}

impl<K: PayloadType> View for Payload<K> {
    type V = Seq<u8>;

    closed spec fn view(&self) -> Seq<u8> {
        self.data@
    }
}

impl<K: PayloadType> Payload<K> {
    #[verifier::type_invariant]
    closed spec fn fits(&self) -> bool {
        self.data@.len() <= K::spec_max_size()
    }

    /// The empty payload.
    pub fn new_empty() -> (r: Self)
        ensures
            r@ == Seq::<u8>::empty(),
    {
        Payload { data: Vec::new(), marker: core::marker::PhantomData }
    }

    /// Builds a payload from bytes known to fit.
    pub fn new_unchecked(data: &[u8]) -> (r: Self)
        requires
            data@.len() <= K::spec_max_size(),
        ensures
            r@ == data@,
    {
        Payload { data: slice_to_vec(data), marker: core::marker::PhantomData }
    }

    /// Builds a payload from the first `K::max_size()` bytes of `data`.
    pub fn new_truncated(data: &[u8]) -> (r: Self)
        requires
            data@.len() >= K::spec_max_size(),
        ensures
            r@ == data@.subrange(0, K::spec_max_size() as int),
    {
        let max = K::max_size();
        Payload { data: slice_to_vec(&data[0..max]), marker: core::marker::PhantomData }
    }

    /// Builds a payload; fails when `data` is longer than the kind allows.
    pub fn new(data: &[u8]) -> (r: Result<Self, ProtocolError>)
        ensures
            data@.len() > K::spec_max_size() ==> (r matches Err(e) && e
                == ProtocolError::BufferSizeError),
            data@.len() <= K::spec_max_size() ==> (r matches Ok(p) && p@ == data@),
    {
        if data.len() > K::max_size() {
            Err(ProtocolError::BufferSizeError)
        } else {
            Ok(Payload { data: slice_to_vec(data), marker: core::marker::PhantomData })
        }
    }

    /// Builds a payload from a vector; fails when it is longer than the kind allows.
    pub fn new_from_vec(data: Vec<u8>) -> (r: Result<Self, ProtocolError>)
        ensures
            data@.len() > K::spec_max_size() ==> (r matches Err(e) && e
                == ProtocolError::BufferSizeError),
            data@.len() <= K::spec_max_size() ==> (r matches Ok(p) && p@ == data@),
    {
        if data.len() > K::max_size() {
            Err(ProtocolError::BufferSizeError)
        } else {
            Ok(Payload { data, marker: core::marker::PhantomData })
        }
    }

    /// Same as [`Payload::new_from_vec`].
    pub fn try_from(data: Vec<u8>) -> (r: Result<Self, ProtocolError>)
        ensures
            data@.len() > K::spec_max_size() ==> (r matches Err(e) && e
                == ProtocolError::BufferSizeError),
            data@.len() <= K::spec_max_size() ==> (r matches Ok(p) && p@ == data@),
    {
        Self::new_from_vec(data)
    }

    /// The bytes of the payload.
    pub fn data(&self) -> (r: &[u8])
        ensures
            r@ == self@,
            r@.len() <= K::spec_max_size(),
    {
        proof {
            use_type_invariant(self);
        }
        self.data.as_slice()
    }

    /// The number of bytes of the payload.
    pub fn len(&self) -> (r: usize)
        ensures
            r == self@.len(),
            r <= K::spec_max_size(),
    {
        proof {
            use_type_invariant(self);
        }
        self.data.len()
    }

    /// The bytes of the payload, by value.
    pub fn into_raw_vec(self) -> (r: Vec<u8>)
        ensures
            r@ == self@,
            r@.len() <= K::spec_max_size(),
    {
        proof {
            use_type_invariant(&self);
        }
        self.data
    }

    /// Maximum size of a payload of this kind.
    pub fn max_size() -> (r: usize)
        ensures
            r as nat == K::spec_max_size(),
    {
        K::max_size()
    }
}

impl Payload<ClCd> {
    /// A board-class command payload as a command payload.
    pub fn into_command_payload(self) -> (r: Payload<Cd>)
        ensures
            r@ == self@,
    {
        let data = self.into_raw_vec();
        Payload { data, marker: core::marker::PhantomData }
    }
}


/// A value that a payload of kind `K` carries: encoded to it, and decoded
/// from the bytes of one.
pub trait AsPayload<K: PayloadType>: Sized {
    /// The bytes that encode the value.
    spec fn spec_payload_bytes(&self) -> Seq<u8>;

    /// What decoding the bytes of a payload gives.
    spec fn spec_from_payload_bytes(data: Seq<u8>) -> Result<Self, ProtocolError>;

    /// Encodes the value as a payload.
    fn to_payload(&self) -> (r: Payload<K>)
        ensures
            r@ == self.spec_payload_bytes(),
    ;

    /// The bytes that encode the value.
    fn to_raw_vec(&self) -> (r: Vec<u8>)
        ensures
            r@ == self.spec_payload_bytes(),
    ;

    /// Decodes bytes; refused when they are more than a payload of kind `K`
    /// holds.
    fn try_from_raw(data: &[u8]) -> (r: Result<Self, ProtocolError>)
        ensures
            data@.len() > K::spec_max_size() ==> r == Err::<Self, ProtocolError>(
                ProtocolError::BufferSizeError,
            ),
            data@.len() <= K::spec_max_size() ==> r == Self::spec_from_payload_bytes(data@),
    ;
}

} // verus!
