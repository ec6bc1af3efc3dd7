use vstd::prelude::*;

verus! {

/// Base of the CANIOT error codes; `Ok` is 0 and every error follows this base in order.
pub const ERROR_BASE: i32 = 0x3A00;

/// Error codes carried by CANIOT error responses.
#[derive(Debug, Clone, Copy, PartialEq, Eq, Structural)]
pub enum ErrorCode {
    /// No error (the code 0)
    NoError,
    /// Invalid argument
    Einval,
    /// Unprocessable
    Enproc,
    /// Command error
    Ecmd,
    /// Key error (read/write-attribute)
    Ekey,
    /// Timeout
    Etimeout,
    /// Busy / try again
    Eagain,
    /// Format error
    Efmt,
    /// Undefined command handler
    Ehandlerc,
    /// Undefined telemetry handler
    Ehandlert,
    /// Telemetry error
    Etelemetry,
    /// Unexpected frame
    Eunexpected,
    /// Endpoint error
    Eep,
    /// Illegal command, broadcast to all endpoints
    Ecmdep,
    /// Not initialized
    Euninit,
    /// Driver error
    Edriver,
    /// API error
    Eapi,
    /// Unknown attributes section
    Ekeysection,
    /// Unknown attribute
    Ekeyattr,
    /// Unknown attribute part
    Ekeypart,
    /// No attribute
    Enoattr,
    /// Class attribute not accessible for current device
    Eclsattr,
    Ereadonly,
    Enull,
    EnullDrv,
    EnullApi,
    EnullId,
    EnullDev,
    EnullCfg,
    EnullCtrl,
    EnullCtrlCb,
    /// Read-only attribute
    Eroattr,
    /// Query read attribute
    Ereadattr,
    /// Query write attribute
    Ewriteattr,
    /// No event handler
    Eenocb,
    Eecb,
    /// Pending query allocation
    Epqalloc,
    /// No pending query
    Enopq,
    /// No handler
    Enohandle,
    /// Device error
    Edevice,
    /// Not a valid CANIOT frame
    Eframe,
    /// Malformed frame
    Emlfrm,
    /// Invalid class
    Eclass,
    /// Invalid configuration
    Ecfg,
    /// Invalid hysteresis structure
    Ehyst,
    /// Not supported
    Enotsup,
    /// Not implemented
    Enimpl,
}

impl ErrorCode {
    /// The numeric code carried on the wire.
    pub open spec fn spec_value(self) -> i32 {
        match self {
            ErrorCode::NoError => 0x0i32,
            ErrorCode::Einval => 0x3a00i32,
            ErrorCode::Enproc => 0x3a01i32,
            ErrorCode::Ecmd => 0x3a02i32,
            ErrorCode::Ekey => 0x3a03i32,
            ErrorCode::Etimeout => 0x3a04i32,
            ErrorCode::Eagain => 0x3a05i32,
            ErrorCode::Efmt => 0x3a06i32,
            ErrorCode::Ehandlerc => 0x3a07i32,
            ErrorCode::Ehandlert => 0x3a08i32,
            ErrorCode::Etelemetry => 0x3a09i32,
            ErrorCode::Eunexpected => 0x3a0ai32,
            ErrorCode::Eep => 0x3a0bi32,
            ErrorCode::Ecmdep => 0x3a0ci32,
            ErrorCode::Euninit => 0x3a0di32,
            ErrorCode::Edriver => 0x3a0ei32,
            ErrorCode::Eapi => 0x3a0fi32,
            ErrorCode::Ekeysection => 0x3a10i32,
            ErrorCode::Ekeyattr => 0x3a11i32,
            ErrorCode::Ekeypart => 0x3a12i32,
            ErrorCode::Enoattr => 0x3a13i32,
            ErrorCode::Eclsattr => 0x3a14i32,
            ErrorCode::Ereadonly => 0x3a15i32,
            ErrorCode::Enull => 0x3a16i32,
            ErrorCode::EnullDrv => 0x3a17i32,
            ErrorCode::EnullApi => 0x3a18i32,
            ErrorCode::EnullId => 0x3a19i32,
            ErrorCode::EnullDev => 0x3a1ai32,
            ErrorCode::EnullCfg => 0x3a1bi32,
            ErrorCode::EnullCtrl => 0x3a1ci32,
            ErrorCode::EnullCtrlCb => 0x3a1di32,
            ErrorCode::Eroattr => 0x3a1ei32,
            ErrorCode::Ereadattr => 0x3a1fi32,
            ErrorCode::Ewriteattr => 0x3a20i32,
            ErrorCode::Eenocb => 0x3a21i32,
            ErrorCode::Eecb => 0x3a22i32,
            ErrorCode::Epqalloc => 0x3a23i32,
            ErrorCode::Enopq => 0x3a24i32,
            ErrorCode::Enohandle => 0x3a25i32,
            ErrorCode::Edevice => 0x3a26i32,
            ErrorCode::Eframe => 0x3a27i32,
            ErrorCode::Emlfrm => 0x3a28i32,
            ErrorCode::Eclass => 0x3a29i32,
            ErrorCode::Ecfg => 0x3a2ai32,
            ErrorCode::Ehyst => 0x3a2bi32,
            ErrorCode::Enotsup => 0x3a2ci32,
            ErrorCode::Enimpl => 0x3a2di32,
        }
    }

    /// The variant that carries the code `v`, if any.
    pub open spec fn spec_from_i32(v: i32) -> Option<ErrorCode> {
        if exists|e: ErrorCode| e.spec_value() == v {
            Some(choose|e: ErrorCode| e.spec_value() == v)
        } else {
            None
        }
    }

    /// No two variants carry the same code.
    pub proof fn lemma_value_injective(self)
        ensures
            forall|f: ErrorCode| #[trigger] f.spec_value() == self.spec_value() ==> f == self,
    {
    }

    /// Returns the numeric code of the error.
    pub fn value(&self) -> (r: i32)
        ensures
            r == self.spec_value(),
    {
        match self {
            ErrorCode::NoError => 0x0,
            ErrorCode::Einval => 0x3a00,
            ErrorCode::Enproc => 0x3a01,
            ErrorCode::Ecmd => 0x3a02,
            ErrorCode::Ekey => 0x3a03,
            ErrorCode::Etimeout => 0x3a04,
            ErrorCode::Eagain => 0x3a05,
            ErrorCode::Efmt => 0x3a06,
            ErrorCode::Ehandlerc => 0x3a07,
            ErrorCode::Ehandlert => 0x3a08,
            ErrorCode::Etelemetry => 0x3a09,
            ErrorCode::Eunexpected => 0x3a0a,
            ErrorCode::Eep => 0x3a0b,
            ErrorCode::Ecmdep => 0x3a0c,
            ErrorCode::Euninit => 0x3a0d,
            ErrorCode::Edriver => 0x3a0e,
            ErrorCode::Eapi => 0x3a0f,
            ErrorCode::Ekeysection => 0x3a10,
            ErrorCode::Ekeyattr => 0x3a11,
            ErrorCode::Ekeypart => 0x3a12,
            ErrorCode::Enoattr => 0x3a13,
            ErrorCode::Eclsattr => 0x3a14,
            ErrorCode::Ereadonly => 0x3a15,
            ErrorCode::Enull => 0x3a16,
            ErrorCode::EnullDrv => 0x3a17,
            ErrorCode::EnullApi => 0x3a18,
            ErrorCode::EnullId => 0x3a19,
            ErrorCode::EnullDev => 0x3a1a,
            ErrorCode::EnullCfg => 0x3a1b,
            ErrorCode::EnullCtrl => 0x3a1c,
            ErrorCode::EnullCtrlCb => 0x3a1d,
            ErrorCode::Eroattr => 0x3a1e,
            ErrorCode::Ereadattr => 0x3a1f,
            ErrorCode::Ewriteattr => 0x3a20,
            ErrorCode::Eenocb => 0x3a21,
            ErrorCode::Eecb => 0x3a22,
            ErrorCode::Epqalloc => 0x3a23,
            ErrorCode::Enopq => 0x3a24,
            ErrorCode::Enohandle => 0x3a25,
            ErrorCode::Edevice => 0x3a26,
            ErrorCode::Eframe => 0x3a27,
            ErrorCode::Emlfrm => 0x3a28,
            ErrorCode::Eclass => 0x3a29,
            ErrorCode::Ecfg => 0x3a2a,
            ErrorCode::Ehyst => 0x3a2b,
            ErrorCode::Enotsup => 0x3a2c,
            ErrorCode::Enimpl => 0x3a2d,
        }
    }

    /// Decodes a numeric code; `None` when no variant carries it.
    pub fn from_i32(v: i32) -> (r: Option<ErrorCode>)
        ensures
            r matches Some(e) ==> e.spec_value() == v,
            r is None ==> forall|e: ErrorCode| e.spec_value() != v,
            r == ErrorCode::spec_from_i32(v),
    {
        let r = match v {
            0x0 => Some(ErrorCode::NoError),
            0x3a00 => Some(ErrorCode::Einval),
            0x3a01 => Some(ErrorCode::Enproc),
            0x3a02 => Some(ErrorCode::Ecmd),
            0x3a03 => Some(ErrorCode::Ekey),
            0x3a04 => Some(ErrorCode::Etimeout),
            0x3a05 => Some(ErrorCode::Eagain),
            0x3a06 => Some(ErrorCode::Efmt),
            0x3a07 => Some(ErrorCode::Ehandlerc),
            0x3a08 => Some(ErrorCode::Ehandlert),
            0x3a09 => Some(ErrorCode::Etelemetry),
            0x3a0a => Some(ErrorCode::Eunexpected),
            0x3a0b => Some(ErrorCode::Eep),
            0x3a0c => Some(ErrorCode::Ecmdep),
            0x3a0d => Some(ErrorCode::Euninit),
            0x3a0e => Some(ErrorCode::Edriver),
            0x3a0f => Some(ErrorCode::Eapi),
            0x3a10 => Some(ErrorCode::Ekeysection),
            0x3a11 => Some(ErrorCode::Ekeyattr),
            0x3a12 => Some(ErrorCode::Ekeypart),
            0x3a13 => Some(ErrorCode::Enoattr),
            0x3a14 => Some(ErrorCode::Eclsattr),
            0x3a15 => Some(ErrorCode::Ereadonly),
            0x3a16 => Some(ErrorCode::Enull),
            0x3a17 => Some(ErrorCode::EnullDrv),
            0x3a18 => Some(ErrorCode::EnullApi),
            0x3a19 => Some(ErrorCode::EnullId),
            0x3a1a => Some(ErrorCode::EnullDev),
            0x3a1b => Some(ErrorCode::EnullCfg),
            0x3a1c => Some(ErrorCode::EnullCtrl),
            0x3a1d => Some(ErrorCode::EnullCtrlCb),
            0x3a1e => Some(ErrorCode::Eroattr),
            0x3a1f => Some(ErrorCode::Ereadattr),
            0x3a20 => Some(ErrorCode::Ewriteattr),
            0x3a21 => Some(ErrorCode::Eenocb),
            0x3a22 => Some(ErrorCode::Eecb),
            0x3a23 => Some(ErrorCode::Epqalloc),
            0x3a24 => Some(ErrorCode::Enopq),
            0x3a25 => Some(ErrorCode::Enohandle),
            0x3a26 => Some(ErrorCode::Edevice),
            0x3a27 => Some(ErrorCode::Eframe),
            0x3a28 => Some(ErrorCode::Emlfrm),
            0x3a29 => Some(ErrorCode::Eclass),
            0x3a2a => Some(ErrorCode::Ecfg),
            0x3a2b => Some(ErrorCode::Ehyst),
            0x3a2c => Some(ErrorCode::Enotsup),
            0x3a2d => Some(ErrorCode::Enimpl),
            _ => None,
        };
        proof {
            if let Some(e) = r {
                e.lemma_value_injective();
                assert(e.spec_value() == v);
            }
        }
        r
    }

}

/// Error codes of the first protocol revision (same numbering as [`ErrorCode`]).
#[derive(Debug, Clone, Copy, PartialEq, Eq, Structural)]
pub enum CaniotError {
    /// No error (the code 0)
    NoError,
    /// Invalid argument
    Einval,
    /// Unprocessable
    Enproc,
    /// Command error
    Ecmd,
    /// Key error (read/write-attribute)
    Ekey,
    /// Timeout
    Etimeout,
    /// Busy / try again
    Eagain,
    /// Format error
    Efmt,
    /// Undefined command handler
    Ehandlerc,
    /// Undefined telemetry handler
    Ehandlert,
    /// Telemetry error
    Etelemetry,
    /// Unexpected frame
    Eunexpected,
    /// Endpoint error
    Eep,
    /// Illegal command, broadcast to all endpoints
    Ecmdep,
    /// Not initialized
    Euninit,
    /// Driver error
    Edriver,
    /// API error
    Eapi,
    /// Unknown attributes section
    Ekeysection,
    /// Unknown attribute
    Ekeyattr,
    /// Unknown attribute part
    Ekeypart,
    /// No attribute
    Enoattr,
    /// Class attribute not accessible for current device
    Eclsattr,
    Ereadonly,
    Enull,
    EnullDrv,
    EnullApi,
    EnullId,
    EnullDev,
    EnullCfg,
    EnullCtrl,
    EnullCtrlCb,
    /// Read-only attribute
    Eroattr,
    /// Query read attribute
    Ereadattr,
    /// Query write attribute
    Ewriteattr,
    /// No event handler
    Eenocb,
    Eecb,
    /// Pending query allocation
    Epqalloc,
    /// No pending query
    Enopq,
    /// No handler
    Enohandle,
    /// Device error
    Edevice,
    /// Not a valid CANIOT frame
    Eframe,
    /// Malformed frame
    Emlfrm,
    /// Invalid class
    Eclass,
    /// Invalid configuration
    Ecfg,
    /// Invalid hysteresis structure
    Ehyst,
    /// Not supported
    Enotsup,
    /// Not implemented
    Enimpl,
}

impl CaniotError {
    /// The numeric code carried on the wire.
    pub open spec fn spec_value(self) -> i32 {
        match self {
            CaniotError::NoError => 0x0i32,
            CaniotError::Einval => 0x3a00i32,
            CaniotError::Enproc => 0x3a01i32,
            CaniotError::Ecmd => 0x3a02i32,
            CaniotError::Ekey => 0x3a03i32,
            CaniotError::Etimeout => 0x3a04i32,
            CaniotError::Eagain => 0x3a05i32,
            CaniotError::Efmt => 0x3a06i32,
            CaniotError::Ehandlerc => 0x3a07i32,
            CaniotError::Ehandlert => 0x3a08i32,
            CaniotError::Etelemetry => 0x3a09i32,
            CaniotError::Eunexpected => 0x3a0ai32,
            CaniotError::Eep => 0x3a0bi32,
            CaniotError::Ecmdep => 0x3a0ci32,
            CaniotError::Euninit => 0x3a0di32,
            CaniotError::Edriver => 0x3a0ei32,
            CaniotError::Eapi => 0x3a0fi32,
            CaniotError::Ekeysection => 0x3a10i32,
            CaniotError::Ekeyattr => 0x3a11i32,
            CaniotError::Ekeypart => 0x3a12i32,
            CaniotError::Enoattr => 0x3a13i32,
            CaniotError::Eclsattr => 0x3a14i32,
            CaniotError::Ereadonly => 0x3a15i32,
            CaniotError::Enull => 0x3a16i32,
            CaniotError::EnullDrv => 0x3a17i32,
            CaniotError::EnullApi => 0x3a18i32,
            CaniotError::EnullId => 0x3a19i32,
            CaniotError::EnullDev => 0x3a1ai32,
            CaniotError::EnullCfg => 0x3a1bi32,
            CaniotError::EnullCtrl => 0x3a1ci32,
            CaniotError::EnullCtrlCb => 0x3a1di32,
            CaniotError::Eroattr => 0x3a1ei32,
            CaniotError::Ereadattr => 0x3a1fi32,
            CaniotError::Ewriteattr => 0x3a20i32,
            CaniotError::Eenocb => 0x3a21i32,
            CaniotError::Eecb => 0x3a22i32,
            CaniotError::Epqalloc => 0x3a23i32,
            CaniotError::Enopq => 0x3a24i32,
            CaniotError::Enohandle => 0x3a25i32,
            CaniotError::Edevice => 0x3a26i32,
            CaniotError::Eframe => 0x3a27i32,
            CaniotError::Emlfrm => 0x3a28i32,
            CaniotError::Eclass => 0x3a29i32,
            CaniotError::Ecfg => 0x3a2ai32,
            CaniotError::Ehyst => 0x3a2bi32,
            CaniotError::Enotsup => 0x3a2ci32,
            CaniotError::Enimpl => 0x3a2di32,
        }
    }

    /// The variant that carries the code `v`, if any.
    pub open spec fn spec_from_i32(v: i32) -> Option<CaniotError> {
        if exists|e: CaniotError| e.spec_value() == v {
            Some(choose|e: CaniotError| e.spec_value() == v)
        } else {
            None
        }
    }

    /// No two variants carry the same code.
    pub proof fn lemma_value_injective(self)
        ensures
            forall|f: CaniotError| #[trigger] f.spec_value() == self.spec_value() ==> f == self,
    {
    }

    /// Returns the numeric code of the error.
    pub fn value(&self) -> (r: i32)
        ensures
            r == self.spec_value(),
    {
        match self {
            CaniotError::NoError => 0x0,
            CaniotError::Einval => 0x3a00,
            CaniotError::Enproc => 0x3a01,
            CaniotError::Ecmd => 0x3a02,
            CaniotError::Ekey => 0x3a03,
            CaniotError::Etimeout => 0x3a04,
            CaniotError::Eagain => 0x3a05,
            CaniotError::Efmt => 0x3a06,
            CaniotError::Ehandlerc => 0x3a07,
            CaniotError::Ehandlert => 0x3a08,
            CaniotError::Etelemetry => 0x3a09,
            CaniotError::Eunexpected => 0x3a0a,
            CaniotError::Eep => 0x3a0b,
            CaniotError::Ecmdep => 0x3a0c,
            CaniotError::Euninit => 0x3a0d,
            CaniotError::Edriver => 0x3a0e,
            CaniotError::Eapi => 0x3a0f,
            CaniotError::Ekeysection => 0x3a10,
            CaniotError::Ekeyattr => 0x3a11,
            CaniotError::Ekeypart => 0x3a12,
            CaniotError::Enoattr => 0x3a13,
            CaniotError::Eclsattr => 0x3a14,
            CaniotError::Ereadonly => 0x3a15,
            CaniotError::Enull => 0x3a16,
            CaniotError::EnullDrv => 0x3a17,
            CaniotError::EnullApi => 0x3a18,
            CaniotError::EnullId => 0x3a19,
            CaniotError::EnullDev => 0x3a1a,
            CaniotError::EnullCfg => 0x3a1b,
            CaniotError::EnullCtrl => 0x3a1c,
            CaniotError::EnullCtrlCb => 0x3a1d,
            CaniotError::Eroattr => 0x3a1e,
            CaniotError::Ereadattr => 0x3a1f,
            CaniotError::Ewriteattr => 0x3a20,
            CaniotError::Eenocb => 0x3a21,
            CaniotError::Eecb => 0x3a22,
            CaniotError::Epqalloc => 0x3a23,
            CaniotError::Enopq => 0x3a24,
            CaniotError::Enohandle => 0x3a25,
            CaniotError::Edevice => 0x3a26,
            CaniotError::Eframe => 0x3a27,
            CaniotError::Emlfrm => 0x3a28,
            CaniotError::Eclass => 0x3a29,
            CaniotError::Ecfg => 0x3a2a,
            CaniotError::Ehyst => 0x3a2b,
            CaniotError::Enotsup => 0x3a2c,
            CaniotError::Enimpl => 0x3a2d,
        }
    }

    /// Decodes a numeric code; `None` when no variant carries it.
    pub fn from_i32(v: i32) -> (r: Option<CaniotError>)
        ensures
            r matches Some(e) ==> e.spec_value() == v,
            r is None ==> forall|e: CaniotError| e.spec_value() != v,
            r == CaniotError::spec_from_i32(v),
    {
        let r = match v {
            0x0 => Some(CaniotError::NoError),
            0x3a00 => Some(CaniotError::Einval),
            0x3a01 => Some(CaniotError::Enproc),
            0x3a02 => Some(CaniotError::Ecmd),
            0x3a03 => Some(CaniotError::Ekey),
            0x3a04 => Some(CaniotError::Etimeout),
            0x3a05 => Some(CaniotError::Eagain),
            0x3a06 => Some(CaniotError::Efmt),
            0x3a07 => Some(CaniotError::Ehandlerc),
            0x3a08 => Some(CaniotError::Ehandlert),
            0x3a09 => Some(CaniotError::Etelemetry),
            0x3a0a => Some(CaniotError::Eunexpected),
            0x3a0b => Some(CaniotError::Eep),
            0x3a0c => Some(CaniotError::Ecmdep),
            0x3a0d => Some(CaniotError::Euninit),
            0x3a0e => Some(CaniotError::Edriver),
            0x3a0f => Some(CaniotError::Eapi),
            0x3a10 => Some(CaniotError::Ekeysection),
            0x3a11 => Some(CaniotError::Ekeyattr),
            0x3a12 => Some(CaniotError::Ekeypart),
            0x3a13 => Some(CaniotError::Enoattr),
            0x3a14 => Some(CaniotError::Eclsattr),
            0x3a15 => Some(CaniotError::Ereadonly),
            0x3a16 => Some(CaniotError::Enull),
            0x3a17 => Some(CaniotError::EnullDrv),
            0x3a18 => Some(CaniotError::EnullApi),
            0x3a19 => Some(CaniotError::EnullId),
            0x3a1a => Some(CaniotError::EnullDev),
            0x3a1b => Some(CaniotError::EnullCfg),
            0x3a1c => Some(CaniotError::EnullCtrl),
            0x3a1d => Some(CaniotError::EnullCtrlCb),
            0x3a1e => Some(CaniotError::Eroattr),
            0x3a1f => Some(CaniotError::Ereadattr),
            0x3a20 => Some(CaniotError::Ewriteattr),
            0x3a21 => Some(CaniotError::Eenocb),
            0x3a22 => Some(CaniotError::Eecb),
            0x3a23 => Some(CaniotError::Epqalloc),
            0x3a24 => Some(CaniotError::Enopq),
            0x3a25 => Some(CaniotError::Enohandle),
            0x3a26 => Some(CaniotError::Edevice),
            0x3a27 => Some(CaniotError::Eframe),
            0x3a28 => Some(CaniotError::Emlfrm),
            0x3a29 => Some(CaniotError::Eclass),
            0x3a2a => Some(CaniotError::Ecfg),
            0x3a2b => Some(CaniotError::Ehyst),
            0x3a2c => Some(CaniotError::Enotsup),
            0x3a2d => Some(CaniotError::Enimpl),
            _ => None,
        };
        proof {
            if let Some(e) = r {
                e.lemma_value_injective();
                assert(e.spec_value() == v);
            }
        }
        r
    }

}

/// Errors raised while building or decoding protocol payloads.
#[derive(Debug, Clone, Copy, PartialEq, Eq, Structural)]
pub enum ProtocolError {
    /// A payload is longer than its kind allows.
    BufferSizeError,
    /// A payload cannot be decoded.
    PayloadDecodeError,
    /// The board class is not supported.
    UnsupportedClass,
    /// A device identifier is out of range.
    DeviceIdCreationError,
}

/// The code of an error is decoded into the same error, and every code is
/// either 0 or one of the 46 codes that follow the error base.
pub proof fn lemma_error_code_roundtrip(e: ErrorCode)
    ensures
        ErrorCode::spec_from_i32(e.spec_value()) == Some(e),
        e.spec_value() == 0 || (ERROR_BASE <= e.spec_value() < ERROR_BASE + 46),
{
    e.lemma_value_injective();
}

/// The code of each error is fixed by the protocol: no error is 0, and the
/// errors are numbered from 0x3a00 (EINVAL) up to 0x3a2d (ENIMPL) in the
/// protocol's order.
pub proof fn lemma_error_codes(e: ErrorCode)
    ensures
        (e == ErrorCode::NoError) == (e.spec_value() == 0x0),
        (e == ErrorCode::Einval) == (e.spec_value() == 0x3a00),
        (e == ErrorCode::Enproc) == (e.spec_value() == 0x3a01),
        (e == ErrorCode::Ecmd) == (e.spec_value() == 0x3a02),
        (e == ErrorCode::Ekey) == (e.spec_value() == 0x3a03),
        (e == ErrorCode::Etimeout) == (e.spec_value() == 0x3a04),
        (e == ErrorCode::Eagain) == (e.spec_value() == 0x3a05),
        (e == ErrorCode::Efmt) == (e.spec_value() == 0x3a06),
        (e == ErrorCode::Ehandlerc) == (e.spec_value() == 0x3a07),
        (e == ErrorCode::Ehandlert) == (e.spec_value() == 0x3a08),
        (e == ErrorCode::Etelemetry) == (e.spec_value() == 0x3a09),
        (e == ErrorCode::Eunexpected) == (e.spec_value() == 0x3a0a),
        (e == ErrorCode::Eep) == (e.spec_value() == 0x3a0b),
        (e == ErrorCode::Ecmdep) == (e.spec_value() == 0x3a0c),
        (e == ErrorCode::Euninit) == (e.spec_value() == 0x3a0d),
        (e == ErrorCode::Edriver) == (e.spec_value() == 0x3a0e),
        (e == ErrorCode::Eapi) == (e.spec_value() == 0x3a0f),
        (e == ErrorCode::Ekeysection) == (e.spec_value() == 0x3a10),
        (e == ErrorCode::Ekeyattr) == (e.spec_value() == 0x3a11),
        (e == ErrorCode::Ekeypart) == (e.spec_value() == 0x3a12),
        (e == ErrorCode::Enoattr) == (e.spec_value() == 0x3a13),
        (e == ErrorCode::Eclsattr) == (e.spec_value() == 0x3a14),
        (e == ErrorCode::Ereadonly) == (e.spec_value() == 0x3a15),
        (e == ErrorCode::Enull) == (e.spec_value() == 0x3a16),
        (e == ErrorCode::EnullDrv) == (e.spec_value() == 0x3a17),
        (e == ErrorCode::EnullApi) == (e.spec_value() == 0x3a18),
        (e == ErrorCode::EnullId) == (e.spec_value() == 0x3a19),
        (e == ErrorCode::EnullDev) == (e.spec_value() == 0x3a1a),
        (e == ErrorCode::EnullCfg) == (e.spec_value() == 0x3a1b),
        (e == ErrorCode::EnullCtrl) == (e.spec_value() == 0x3a1c),
        (e == ErrorCode::EnullCtrlCb) == (e.spec_value() == 0x3a1d),
        (e == ErrorCode::Eroattr) == (e.spec_value() == 0x3a1e),
        (e == ErrorCode::Ereadattr) == (e.spec_value() == 0x3a1f),
        (e == ErrorCode::Ewriteattr) == (e.spec_value() == 0x3a20),
        (e == ErrorCode::Eenocb) == (e.spec_value() == 0x3a21),
        (e == ErrorCode::Eecb) == (e.spec_value() == 0x3a22),
        (e == ErrorCode::Epqalloc) == (e.spec_value() == 0x3a23),
        (e == ErrorCode::Enopq) == (e.spec_value() == 0x3a24),
        (e == ErrorCode::Enohandle) == (e.spec_value() == 0x3a25),
        (e == ErrorCode::Edevice) == (e.spec_value() == 0x3a26),
        (e == ErrorCode::Eframe) == (e.spec_value() == 0x3a27),
        (e == ErrorCode::Emlfrm) == (e.spec_value() == 0x3a28),
        (e == ErrorCode::Eclass) == (e.spec_value() == 0x3a29),
        (e == ErrorCode::Ecfg) == (e.spec_value() == 0x3a2a),
        (e == ErrorCode::Ehyst) == (e.spec_value() == 0x3a2b),
        (e == ErrorCode::Enotsup) == (e.spec_value() == 0x3a2c),
        (e == ErrorCode::Enimpl) == (e.spec_value() == 0x3a2d),
{
}

} // verus!
