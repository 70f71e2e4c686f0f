//! Which decoder is derived for a user's record type.

use vstd::prelude::*;

verus! {

/// The kind of item that the derive was put on.
#[derive(Clone, Copy, Debug, PartialEq, Eq, Structural)]
pub enum ItemKind {
    Struct,
    Enum,
    /// Anything that is neither a struct nor an enum.
    Other,
}

/// The decoder that is generated.
#[derive(Clone, Copy, Debug, PartialEq, Eq, Structural)]
pub enum Derivation {
    /// The value is unpacked from JSON.
    Json,
    /// The value is decoded field by field from an object shape.
    Shape,
}

/// Why nothing can be derived.
#[derive(Clone, Copy, Debug, PartialEq, Eq, Structural)]
pub enum DeriveError {
    /// The item is neither a struct nor an enum.
    NotStructOrEnum,
    /// The item is an enum and is not unpacked from JSON.
    NotStruct,
}

impl DeriveError {
    /// The error in words.
    pub fn message(&self) -> (text: &'static str)
        ensures
            text@ == (match *self {
                DeriveError::NotStructOrEnum => "can only derive Queryable for structs and enums"@,
                DeriveError::NotStruct => "can only derive Queryable for a struct in non-JSON mode"@,
            }),
    {
        match self {
            DeriveError::NotStructOrEnum => "can only derive Queryable for structs and enums",
            DeriveError::NotStruct => "can only derive Queryable for a struct in non-JSON mode",
        }
    }
}

/// Whether the container attributes of an item of this kind are read at
/// all: only a struct or an enum has any.
pub open spec fn has_attributes(kind: ItemKind) -> bool {
    kind is Struct || kind is Enum
}

/// The decoder for an item of this kind whose container attributes ask,
/// or do not ask, for JSON.
pub open spec fn spec_derive(kind: ItemKind, json: bool) -> Result<Derivation, DeriveError> {
    if !has_attributes(kind) {
        Err(DeriveError::NotStructOrEnum)
    } else if json {
        Ok(Derivation::Json)
    } else if kind is Struct {
        Ok(Derivation::Shape)
    } else {
        Err(DeriveError::NotStruct)
    }
}

/// Picks the decoder to derive.
#[verifier::when_used_as_spec(spec_derive)]
pub fn derive(kind: ItemKind, json: bool) -> (r: Result<Derivation, DeriveError>)
    ensures
        r == spec_derive(kind, json),
{
    match kind {
        ItemKind::Other => Err(DeriveError::NotStructOrEnum),
        ItemKind::Struct => if json {
            Ok(Derivation::Json)
        } else {
            Ok(Derivation::Shape)
        },
        ItemKind::Enum => if json {
            Ok(Derivation::Json)
        } else {
            Err(DeriveError::NotStruct)
        },
    }
}

} // verus!
