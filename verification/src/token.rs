//! The token alphabet of the source language. The compiler itself consumes
//! a finished syntax tree; tokens are the shape of its upstream input.
use crate::ast::Numeral;
use vstd::prelude::*;

verus! {

/// One lexical token of the source text.
#[derive(Debug, PartialEq)]
pub enum Tok {
    Plus,
    Minus,
    Mul,
    Div,
    Pow,
    Assign,
    And,
    Or,
    Lt,
    Le,
    Gt,
    Ge,
    Eq,
    NotEq,
    URL,
    JSON,
    Uint,
    Bool,
    String,
    Address,
    Function,
    Contract,
    If,
    Else,
    For,
    In,
    Returns,
    LPar,
    RPar,
    LBrace,
    RBrace,
    Semi,
    Comma,
    Dot,
    DotDot,
    Num { number: Numeral },
    Literal { literal: String },
    Identifier { name: String },
    EOF,
}

} // verus!
