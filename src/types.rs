use vstd::prelude::*;

use crate::error::{Error, SerializationError};

verus! {

/// Identifier of the `name` type.
pub const NAME_OID: u32 = 19;
/// Identifier of the `int8` type.
pub const INT8_OID: u32 = 20;
/// Identifier of the `int4` type.
pub const INT4_OID: u32 = 23;
/// Identifier of the `text` type.
pub const TEXT_OID: u32 = 25;
/// Identifier of the `bpchar` type.
pub const BPCHAR_OID: u32 = 1042;
/// Identifier of the `varchar` type.
pub const VARCHAR_OID: u32 = 1043;

/// The type of `oid` carries character strings, which hold no zero byte.
pub open spec fn is_string_type(oid: u32) -> bool {
    oid == TEXT_OID || oid == VARCHAR_OID || oid == BPCHAR_OID || oid == NAME_OID
}

/// Whether parameters of the type `oid` carry character strings.
pub fn string_type(oid: u32) -> (r: bool)
    ensures
        r == is_string_type(oid),
{
    oid == TEXT_OID || oid == VARCHAR_OID || oid == BPCHAR_OID || oid == NAME_OID
}

/// The type of a parameter, as the type registry resolved it.
#[derive(Debug, Clone, PartialEq, Eq)]
pub enum PgTypeMetadata {
    /// The type has the identifier `oid`, and its arrays have `array_oid`.
    Resolved { oid: u32, array_oid: u32 },
    /// The registry found no type named `sql_type`.
    Unresolved { sql_type: String },
}

impl PgTypeMetadata {
    /// A type with known identifiers.
    pub fn new(oid: u32, array_oid: u32) -> (r: PgTypeMetadata)
        ensures
            r == (PgTypeMetadata::Resolved { oid, array_oid }),
    {
        PgTypeMetadata::Resolved { oid, array_oid }
    }

    /// A type that the registry could not find.
    pub fn from_failed_lookup(sql_type: String) -> (r: PgTypeMetadata)
        ensures
            r == (PgTypeMetadata::Unresolved { sql_type }),
    {
        PgTypeMetadata::Unresolved { sql_type }
    }

    /// The type's identifier; `index` is the parameter's place, for the error.
    pub fn oid(&self, index: usize) -> (r: Result<u32, Error>)
        ensures
            match self {
                PgTypeMetadata::Resolved { oid, .. } => r == Ok::<u32, Error>(*oid),
                PgTypeMetadata::Unresolved { sql_type } => match r {
                    Err(Error::Serialization(SerializationError::UnknownType { index: i, sql_type: t })) =>
                        i == index && t@ == sql_type@,
                    _ => false,
                },
            },
    {
        match self {
            PgTypeMetadata::Resolved { oid, .. } => Ok(*oid),
            PgTypeMetadata::Unresolved { sql_type } => Err(Error::Serialization(
                SerializationError::UnknownType { index, sql_type: sql_type.clone() },
            )),
        }
    }
}

} // verus!
