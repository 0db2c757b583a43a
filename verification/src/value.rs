//! The literal values that a constant can hold, and their textual form.

use crate::number::{int_text, signed_text, unsigned_text};
use vstd::prelude::*;
use vstd::string::StringExecFns;

verus! {

/// The value of one constant, tagged with its declared type.
///
/// `Text` holds a value that is already in its textual form; it stands for
/// the types that have no variant of their own.
#[derive(Debug, PartialEq, Eq)]
pub enum ConstValue {
    I8(i8),
    I16(i16),
    I32(i32),
    I64(i64),
    I128(i128),
    Isize(isize),
    U8(u8),
    U16(u16),
    U32(u32),
    U64(u64),
    U128(u128),
    Usize(usize),
    Bool(bool),
    Char(char),
    Text(String),
}

/// What a constant's value is, apart from the width of its type.
pub ghost enum Literal {
    Int(int),
    Bool(bool),
    Char(char),
    Text(Seq<char>),
}

impl View for ConstValue {
    type V = Literal;

    open spec fn view(&self) -> Literal {
        match *self {
            ConstValue::I8(i) => Literal::Int(i as int),
            ConstValue::I16(i) => Literal::Int(i as int),
            ConstValue::I32(i) => Literal::Int(i as int),
            ConstValue::I64(i) => Literal::Int(i as int),
            ConstValue::I128(i) => Literal::Int(i as int),
            ConstValue::Isize(i) => Literal::Int(i as int),
            ConstValue::U8(n) => Literal::Int(n as int),
            ConstValue::U16(n) => Literal::Int(n as int),
            ConstValue::U32(n) => Literal::Int(n as int),
            ConstValue::U64(n) => Literal::Int(n as int),
            ConstValue::U128(n) => Literal::Int(n as int),
            ConstValue::Usize(n) => Literal::Int(n as int),
            ConstValue::Bool(b) => Literal::Bool(b),
            ConstValue::Char(c) => Literal::Char(c),
            ConstValue::Text(s) => Literal::Text(s@),
        }
    }
}

/// The text that stands for a literal in a description: an integer in
/// decimal notation, a boolean as `true` or `false`, a character as itself,
/// and a text unchanged.
pub open spec fn literal_text(literal: Literal) -> Seq<char> {
    match literal {
        Literal::Int(i) => int_text(i),
        Literal::Bool(b) => if b {
            seq!['t', 'r', 'u', 'e']
        } else {
            seq!['f', 'a', 'l', 's', 'e']
        },
        Literal::Char(c) => seq![c],
        Literal::Text(s) => s,
    }
}

impl Clone for ConstValue {
    fn clone(&self) -> (copy: ConstValue)
        ensures
            copy == *self,
    {
        match self {
            ConstValue::I8(i) => ConstValue::I8(*i),
            ConstValue::I16(i) => ConstValue::I16(*i),
            ConstValue::I32(i) => ConstValue::I32(*i),
            ConstValue::I64(i) => ConstValue::I64(*i),
            ConstValue::I128(i) => ConstValue::I128(*i),
            ConstValue::Isize(i) => ConstValue::Isize(*i),
            ConstValue::U8(n) => ConstValue::U8(*n),
            ConstValue::U16(n) => ConstValue::U16(*n),
            ConstValue::U32(n) => ConstValue::U32(*n),
            ConstValue::U64(n) => ConstValue::U64(*n),
            ConstValue::U128(n) => ConstValue::U128(*n),
            ConstValue::Usize(n) => ConstValue::Usize(*n),
            ConstValue::Bool(b) => ConstValue::Bool(*b),
            ConstValue::Char(c) => ConstValue::Char(*c),
            ConstValue::Text(s) => ConstValue::Text(s.clone()),
        }
    }
}

impl ConstValue {
    /// The value's textual form.
    pub fn text(&self) -> (text: String)
        ensures
            text@ == literal_text(self@),
    {
        match self {
            ConstValue::I8(i) => signed_text(*i as i128),
            ConstValue::I16(i) => signed_text(*i as i128),
            ConstValue::I32(i) => signed_text(*i as i128),
            ConstValue::I64(i) => signed_text(*i as i128),
            ConstValue::I128(i) => signed_text(*i),
            ConstValue::Isize(i) => signed_text(*i as i128),
            ConstValue::U8(n) => unsigned_text(*n as u128),
            ConstValue::U16(n) => unsigned_text(*n as u128),
            ConstValue::U32(n) => unsigned_text(*n as u128),
            ConstValue::U64(n) => unsigned_text(*n as u128),
            ConstValue::U128(n) => unsigned_text(*n),
            ConstValue::Usize(n) => unsigned_text(*n as u128),
            ConstValue::Bool(b) => {
                proof {
                    reveal_strlit("true");
                    reveal_strlit("false");
                }
                if *b {
                    String::from_str("true")
                } else {
                    String::from_str("false")
                }
            },
            ConstValue::Char(c) => {
                let mut text = String::new();
                text.push(*c);
                text
            },
            ConstValue::Text(s) => s.clone(),
        }
    }
}

} // verus!
