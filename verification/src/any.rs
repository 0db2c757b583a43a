//! An untyped value that passes through the bindings as `any`.

use crate::text::{in_parens, parenthesized};
use serde_json::Value;
use vstd::prelude::*;
use vstd::std_specs::convert::{FromSpec, FromSpecImpl};
use vstd::string::StringExecFns;

verus! {

/// `serde_json::Value`, a tree of null, booleans, numbers, strings, arrays
/// and objects. Nothing here looks inside one: it is only carried.
#[verifier::external_type_specification]
#[verifier::external_body]
pub struct ExValue(serde_json::Value);

/// A JSON value that opts out of structured type generation.
///
/// Wrapping and unwrapping lose nothing, and every description of the type
/// is the TypeScript type `any`.
#[derive(Debug)]
pub struct TsAny(Value);

/// `Value::clone`, which `Value` derives: the copy equals the value that it
/// was made from.
pub assume_specification[ <serde_json::Value as Clone>::clone ](value: &Value) -> (copy: Value)
    ensures
        copy == *value,
;

impl View for TsAny {
    type V = Value;

    closed spec fn view(&self) -> Value {
        self.0
    }
}

/// The TypeScript type that accepts every value.
pub open spec fn any_text() -> Seq<char> {
    seq!['a', 'n', 'y']
}

impl TsAny {
    /// The wrapper around `value`.
    pub closed spec fn wrap(value: Value) -> TsAny {
        TsAny(value)
    }

    /// The declaration of the type: `any`.
    pub fn decl() -> (text: String)
        ensures
            text@ == any_text(),
    {
        proof {
            reveal_strlit("any");
        }
        String::from_str("any")
    }

    /// The declaration with every type parameter filled in: `any`.
    pub fn decl_concrete() -> (text: String)
        ensures
            text@ == any_text(),
    {
        Self::decl()
    }

    /// The name of the type: `any`.
    pub fn name() -> (text: String)
        ensures
            text@ == any_text(),
    {
        proof {
            reveal_strlit("any");
        }
        String::from_str("any")
    }

    /// The type written in place: `any`.
    pub fn inline() -> (text: String)
        ensures
            text@ == any_text(),
    {
        proof {
            reveal_strlit("any");
        }
        String::from_str("any")
    }

    /// The type written in place, between round brackets: `(any)`.
    pub fn inline_flattened() -> (text: String)
        ensures
            text@ == in_parens(any_text()),
    {
        let inline = Self::inline();
        parenthesized(inline.as_str())
    }
}

impl Clone for TsAny {
    fn clone(&self) -> (copy: TsAny)
        ensures
            copy == *self,
    {
        TsAny(self.0.clone())
    }
}

impl From<Value> for TsAny {
    /// Wraps `value`.
    fn from(value: Value) -> (wrapped: TsAny)
        ensures
            wrapped@ == value,
    {
        Self(value)
    }
}

impl FromSpecImpl<Value> for TsAny {
    open spec fn obeys_from_spec() -> bool {
        true
    }

    open spec fn from_spec(value: Value) -> TsAny {
        TsAny::wrap(value)
    }
}

impl From<TsAny> for Value {
    /// Takes the value out of its wrapper.
    fn from(value: TsAny) -> (inner: Value)
        ensures
            inner == value@,
    {
        value.0
    }
}

impl FromSpecImpl<TsAny> for Value {
    open spec fn obeys_from_spec() -> bool {
        true
    }

    open spec fn from_spec(value: TsAny) -> Value {
        value@
    }
}

/// Wrapping a value and unwrapping the result gives the value back, and
/// wrapping what was unwrapped gives the wrapper back.
pub proof fn lemma_wrap_unwrap(value: Value, wrapped: TsAny)
    ensures
        <Value as FromSpec<TsAny>>::from_spec(<TsAny as FromSpec<Value>>::from_spec(value))
            == value,
        <TsAny as FromSpec<Value>>::from_spec(<Value as FromSpec<TsAny>>::from_spec(wrapped))
            == wrapped,
        <TsAny as FromSpec<Value>>::from_spec(value)@ == value,
{
}

} // verus!
