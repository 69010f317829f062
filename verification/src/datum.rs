//! Typed engine values and the marshaller that converts them to
//! target-language values.
//!
//! Every value the engine hands back is a [`Datum`]: a type identifier (the
//! engine's type OID) together with an optional payload. Decoding dispatches
//! on the pair of source OID and requested target type; a present value that
//! cannot be read as the requested type is a [`Error::TypeDecodeFailure`],
//! distinguishable from a null, which decodes to `None`.

use vstd::prelude::*;

use crate::error::Error;

verus! {

/// The engine's type identifier for eight-byte integers.
pub const OID_INT8: u32 = 20;

/// The engine's type identifier for booleans.
pub const OID_BOOL: u32 = 16;

/// The payload of a datum: absent, an integer, or a boolean.
#[derive(Clone, Copy, PartialEq, Eq, Structural, Debug)]
pub enum Payload {
    /// SQL null.
    Null,
    /// An eight-byte integer value.
    Int(i64),
    /// A boolean value.
    Boolean(bool),
}

/// One engine-native typed value: a type OID and a payload.
#[derive(Clone, Copy, PartialEq, Eq, Structural, Debug)]
pub struct Datum {
    /// The engine's type identifier for this value.
    pub oid: u32,
    /// The value itself, or null.
    pub payload: Payload,
}

impl Datum {
    /// Whether the payload carries a value of the type the OID announces.
    pub open spec fn wf(self) -> bool {
        match self.payload {
            Payload::Null => true,
            Payload::Int(_) => self.oid == OID_INT8,
            Payload::Boolean(_) => self.oid == OID_BOOL,
        }
    }

    /// Whether the payload carries a value of the type the OID announces.
    pub fn is_wf(&self) -> (r: bool)
        ensures
            r == self.wf(),
    {
        match self.payload {
            Payload::Null => true,
            Payload::Int(_) => self.oid == OID_INT8,
            Payload::Boolean(_) => self.oid == OID_BOOL,
        }
    }

    /// A non-null integer datum.
    pub fn of_int(v: i64) -> (d: Datum)
        ensures
            d == (Datum { oid: OID_INT8, payload: Payload::Int(v) }),
    {
        Datum { oid: OID_INT8, payload: Payload::Int(v) }
    }

    /// A non-null boolean datum.
    pub fn of_bool(v: bool) -> (d: Datum)
        ensures
            d == (Datum { oid: OID_BOOL, payload: Payload::Boolean(v) }),
    {
        Datum { oid: OID_BOOL, payload: Payload::Boolean(v) }
    }

    /// A null of the given type.
    pub fn null(oid: u32) -> (d: Datum)
        ensures
            d == (Datum { oid, payload: Payload::Null }),
    {
        Datum { oid, payload: Payload::Null }
    }
}

/// A target-language type that engine datums can be decoded into.
///
/// Decoding returns `Ok(None)` exactly on null, `Ok(Some(v))` exactly when
/// the datum carries a value this type can represent, and
/// `Err(TypeDecodeFailure)` otherwise.
pub trait FromDatum: Sized {
    /// Whether the datum decodes to a value of this type.
    spec fn decodes(d: Datum) -> bool;

    /// The value a decodable, non-null datum decodes to.
    spec fn decoded(d: Datum) -> Self;

    /// Decode one datum.
    fn from_datum(d: &Datum) -> (r: Result<Option<Self>, Error>)
        ensures
            d.payload is Null ==> r == Ok::<Option<Self>, Error>(None),
            !(d.payload is Null) && Self::decodes(*d) ==> r == Ok::<Option<Self>, Error>(
                Some(Self::decoded(*d)),
            ),
            !(d.payload is Null) && !Self::decodes(*d) ==> r == Err::<Option<Self>, Error>(
                Error::TypeDecodeFailure,
            ),
    ;
}

impl FromDatum for i64 {
    open spec fn decodes(d: Datum) -> bool {
        d.oid == OID_INT8 && d.payload is Int
    }

    open spec fn decoded(d: Datum) -> i64 {
        d.payload->Int_0
    }

    fn from_datum(d: &Datum) -> (r: Result<Option<i64>, Error>) {
        match d.payload {
            Payload::Null => Ok(None),
            Payload::Int(v) => {
                if d.oid == OID_INT8 {
                    Ok(Some(v))
                } else {
                    Err(Error::TypeDecodeFailure)
                }
            },
            Payload::Boolean(_) => Err(Error::TypeDecodeFailure),
        }
    }
}

impl FromDatum for i32 {
    open spec fn decodes(d: Datum) -> bool {
        d.oid == OID_INT8 && d.payload is Int && i32::MIN <= d.payload->Int_0 <= i32::MAX
    }

    open spec fn decoded(d: Datum) -> i32 {
        d.payload->Int_0 as i32
    }

    fn from_datum(d: &Datum) -> (r: Result<Option<i32>, Error>) {
        match d.payload {
            Payload::Null => Ok(None),
            Payload::Int(v) => {
                if d.oid == OID_INT8 && i32::MIN as i64 <= v && v <= i32::MAX as i64 {
                    Ok(Some(v as i32))
                } else {
                    Err(Error::TypeDecodeFailure)
                }
            },
            Payload::Boolean(_) => Err(Error::TypeDecodeFailure),
        }
    }
}

impl FromDatum for bool {
    open spec fn decodes(d: Datum) -> bool {
        d.oid == OID_BOOL && d.payload is Boolean
    }

    open spec fn decoded(d: Datum) -> bool {
        d.payload->Boolean_0
    }

    fn from_datum(d: &Datum) -> (r: Result<Option<bool>, Error>) {
        match d.payload {
            Payload::Null => Ok(None),
            Payload::Boolean(v) => {
                if d.oid == OID_BOOL {
                    Ok(Some(v))
                } else {
                    Err(Error::TypeDecodeFailure)
                }
            },
            Payload::Int(_) => Err(Error::TypeDecodeFailure),
        }
    }
}

} // verus!
