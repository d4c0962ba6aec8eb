//! The type mapping table: the fixed, closed mapping from the five abstract
//! value kinds a contract interface may use to their native parameter
//! representations and marshalling primitives.

use vstd::prelude::*;

verus! {

/// The abstract kind of an interface-method parameter, recovered from the
/// type name written in the declaration. Exactly five names are recognized;
/// every other name maps to `Unsupported`.
#[derive(Clone, Copy, PartialEq, Eq, Structural, Debug)]
pub enum AbstractType {
    /// The source type name `Integer`.
    Integer,
    /// The source type name `Boolean`.
    Boolean,
    /// The source type name `Binary`.
    Binary,
    /// The source type name `String`.
    Text,
    /// The source type name `Payment`.
    Payment,
    /// Any other type name: no table entry, no generated code.
    Unsupported,
}

/// The native representation of a generated function's parameter.
#[derive(Clone, Copy, PartialEq, Eq, Structural, Debug)]
pub enum NativeType {
    /// A 64-bit signed integer (`i64`).
    Int64,
    /// A boolean (`bool`).
    Bool,
    /// A byte slice (`&[u8]`).
    ByteSlice,
    /// A string slice (`&str`).
    StrSlice,
    /// A pair of an asset-id byte slice and a 64-bit signed amount
    /// (`(&[u8], i64)`).
    PaymentPair,
}

/// The runtime marshalling primitive a generated function calls to encode
/// one parameter before dispatch.
#[derive(Clone, Copy, PartialEq, Eq, Structural, Debug)]
pub enum MarshalPrimitive {
    /// `call_arg_int`: single-argument integer encode.
    CallArgInt,
    /// `call_arg_bool`: single-argument boolean encode.
    CallArgBool,
    /// `call_arg_binary`: single-argument byte-slice encode.
    CallArgBinary,
    /// `call_arg_string`: single-argument string encode.
    CallArgString,
    /// `call_payment`: two-argument encode, asset id first, amount second.
    CallPayment,
}

/// The abstract kind named by a parameter's type name.
pub open spec fn spec_kind_of(name: Seq<char>) -> AbstractType {
    if name == "Integer"@ {
        AbstractType::Integer
    } else if name == "Boolean"@ {
        AbstractType::Boolean
    } else if name == "Binary"@ {
        AbstractType::Binary
    } else if name == "String"@ {
        AbstractType::Text
    } else if name == "Payment"@ {
        AbstractType::Payment
    } else {
        AbstractType::Unsupported
    }
}

/// A kind is supported when the type mapping table has an entry for it.
pub open spec fn spec_supported(kind: AbstractType) -> bool {
    kind != AbstractType::Unsupported
}

/// The native parameter form of a supported kind.
pub open spec fn spec_native_type_of(kind: AbstractType) -> NativeType
    recommends
        spec_supported(kind),
{
    match kind {
        AbstractType::Integer => NativeType::Int64,
        AbstractType::Boolean => NativeType::Bool,
        AbstractType::Binary => NativeType::ByteSlice,
        AbstractType::Text => NativeType::StrSlice,
        AbstractType::Payment => NativeType::PaymentPair,
        AbstractType::Unsupported => NativeType::Int64,
    }
}

/// The marshalling primitive of a supported kind.
pub open spec fn spec_primitive_of(kind: AbstractType) -> MarshalPrimitive
    recommends
        spec_supported(kind),
{
    match kind {
        AbstractType::Integer => MarshalPrimitive::CallArgInt,
        AbstractType::Boolean => MarshalPrimitive::CallArgBool,
        AbstractType::Binary => MarshalPrimitive::CallArgBinary,
        AbstractType::Text => MarshalPrimitive::CallArgString,
        AbstractType::Payment => MarshalPrimitive::CallPayment,
        AbstractType::Unsupported => MarshalPrimitive::CallArgInt,
    }
}

/// Relies on `str`'s `PartialEq`: equality of two string slices is equality
/// of their character sequences.
#[verifier::external_body]
pub(crate) fn str_eq(a: &str, b: &str) -> (r: bool)
    ensures
        r == (a@ == b@),
{
    a == b
}

/// Looks a type name up in the type mapping table.
pub fn kind_of_name(name: &str) -> (k: AbstractType)
    ensures
        k == spec_kind_of(name@),
{
    if str_eq(name, "Integer") {
        AbstractType::Integer
    } else if str_eq(name, "Boolean") {
        AbstractType::Boolean
    } else if str_eq(name, "Binary") {
        AbstractType::Binary
    } else if str_eq(name, "String") {
        AbstractType::Text
    } else if str_eq(name, "Payment") {
        AbstractType::Payment
    } else {
        AbstractType::Unsupported
    }
}

/// The native parameter form of a supported kind.
pub fn native_type_of(kind: AbstractType) -> (t: NativeType)
    requires
        spec_supported(kind),
    ensures
        t == spec_native_type_of(kind),
{
    match kind {
        AbstractType::Integer => NativeType::Int64,
        AbstractType::Boolean => NativeType::Bool,
        AbstractType::Binary => NativeType::ByteSlice,
        AbstractType::Text => NativeType::StrSlice,
        AbstractType::Payment => NativeType::PaymentPair,
        AbstractType::Unsupported => NativeType::Int64,
    }
}

/// The marshalling primitive of a supported kind.
pub fn primitive_of(kind: AbstractType) -> (p: MarshalPrimitive)
    requires
        spec_supported(kind),
    ensures
        p == spec_primitive_of(kind),
{
    match kind {
        AbstractType::Integer => MarshalPrimitive::CallArgInt,
        AbstractType::Boolean => MarshalPrimitive::CallArgBool,
        AbstractType::Binary => MarshalPrimitive::CallArgBinary,
        AbstractType::Text => MarshalPrimitive::CallArgString,
        AbstractType::Payment => MarshalPrimitive::CallPayment,
        AbstractType::Unsupported => MarshalPrimitive::CallArgInt,
    }
}

} // verus!
