//! The intermediate representation: a tagged operation set over typed
//! symbols, and the blocks (ordered instruction sequences) that hold it.
use crate::ast::{Location, Numeral, Operator};
use crate::error::{CompileError, CompileErrorType, CompileErrorV, ErrorKindV};
use crate::symbol_table::{Symbol, SymbolV};
use vstd::prelude::*;

verus! {

/// One lowered operation. Binary operations carry a destination and two
/// operands; control flow carries a nested block.
#[derive(Debug, PartialEq)]
pub enum Instruction {
    Add { dst: Box<Symbol>, left: Box<Symbol>, right: Box<Symbol> },
    Sub { dst: Box<Symbol>, left: Box<Symbol>, right: Box<Symbol> },
    Mul { dst: Box<Symbol>, left: Box<Symbol>, right: Box<Symbol> },
    Div { dst: Box<Symbol>, left: Box<Symbol>, right: Box<Symbol> },
    Pow { dst: Box<Symbol>, left: Box<Symbol>, right: Box<Symbol> },
    Assign { dst: Box<Symbol>, src: Box<Symbol> },
    And { dst: Box<Symbol>, left: Box<Symbol>, right: Box<Symbol> },
    Or { dst: Box<Symbol>, left: Box<Symbol>, right: Box<Symbol> },
    Lt { dst: Box<Symbol>, left: Box<Symbol>, right: Box<Symbol> },
    Le { dst: Box<Symbol>, left: Box<Symbol>, right: Box<Symbol> },
    Gt { dst: Box<Symbol>, left: Box<Symbol>, right: Box<Symbol> },
    Ge { dst: Box<Symbol>, left: Box<Symbol>, right: Box<Symbol> },
    Eq { dst: Box<Symbol>, left: Box<Symbol>, right: Box<Symbol> },
    NotEq { dst: Box<Symbol>, left: Box<Symbol>, right: Box<Symbol> },
    Init { name: Box<Symbol> },
    InitAssign { name: Box<Symbol>, src: Box<Symbol> },
    If { cond: Box<Symbol>, block: Box<Block> },
    For { iter: Box<Symbol>, start: Numeral, end: Numeral, block: Box<Block> },
    Else { cond: Box<Symbol>, block: Box<Block> },
    Call { dst: Box<Symbol>, func: Box<Symbol>, args: Vec<Symbol> },
}

/// Mathematical image of an `Instruction`. The fourteen binary variants
/// collapse into one image tagged with its operator.
pub enum InstructionV {
    Binary { op: Operator, dst: SymbolV, left: SymbolV, right: SymbolV },
    Assign { dst: SymbolV, src: SymbolV },
    Init { name: SymbolV },
    InitAssign { name: SymbolV, src: SymbolV },
    If { cond: SymbolV, block: Seq<InstructionV> },
    For { iter: SymbolV, start: Seq<char>, end: Seq<char>, block: Seq<InstructionV> },
    Else { cond: SymbolV, block: Seq<InstructionV> },
    Call { dst: SymbolV, func: SymbolV, args: Seq<SymbolV> },
}

pub open spec fn instr_view(i: Instruction) -> InstructionV
    decreases i,
{
    match i {
        Instruction::Add { dst, left, right } => InstructionV::Binary {
            op: Operator::Add,
            dst: dst@,
            left: left@,
            right: right@,
        },
        Instruction::Sub { dst, left, right } => InstructionV::Binary {
            op: Operator::Sub,
            dst: dst@,
            left: left@,
            right: right@,
        },
        Instruction::Mul { dst, left, right } => InstructionV::Binary {
            op: Operator::Mul,
            dst: dst@,
            left: left@,
            right: right@,
        },
        Instruction::Div { dst, left, right } => InstructionV::Binary {
            op: Operator::Div,
            dst: dst@,
            left: left@,
            right: right@,
        },
        Instruction::Pow { dst, left, right } => InstructionV::Binary {
            op: Operator::Pow,
            dst: dst@,
            left: left@,
            right: right@,
        },
        Instruction::Assign { dst, src } => InstructionV::Assign { dst: dst@, src: src@ },
        Instruction::And { dst, left, right } => InstructionV::Binary {
            op: Operator::And,
            dst: dst@,
            left: left@,
            right: right@,
        },
        Instruction::Or { dst, left, right } => InstructionV::Binary {
            op: Operator::Or,
            dst: dst@,
            left: left@,
            right: right@,
        },
        Instruction::Lt { dst, left, right } => InstructionV::Binary {
            op: Operator::Lt,
            dst: dst@,
            left: left@,
            right: right@,
        },
        Instruction::Le { dst, left, right } => InstructionV::Binary {
            op: Operator::Le,
            dst: dst@,
            left: left@,
            right: right@,
        },
        Instruction::Gt { dst, left, right } => InstructionV::Binary {
            op: Operator::Gt,
            dst: dst@,
            left: left@,
            right: right@,
        },
        Instruction::Ge { dst, left, right } => InstructionV::Binary {
            op: Operator::Ge,
            dst: dst@,
            left: left@,
            right: right@,
        },
        Instruction::Eq { dst, left, right } => InstructionV::Binary {
            op: Operator::Eq,
            dst: dst@,
            left: left@,
            right: right@,
        },
        Instruction::NotEq { dst, left, right } => InstructionV::Binary {
            op: Operator::NotEq,
            dst: dst@,
            left: left@,
            right: right@,
        },
        Instruction::Init { name } => InstructionV::Init { name: name@ },
        Instruction::InitAssign { name, src } => InstructionV::InitAssign {
            name: name@,
            src: src@,
        },
        Instruction::If { cond, block } => InstructionV::If {
            cond: cond@,
            block: block_view(*block),
        },
        Instruction::For { iter, start, end, block } => InstructionV::For {
            iter: iter@,
            start: start@,
            end: end@,
            block: block_view(*block),
        },
        Instruction::Else { cond, block } => InstructionV::Else {
            cond: cond@,
            block: block_view(*block),
        },
        Instruction::Call { dst, func, args } => InstructionV::Call {
            dst: dst@,
            func: func@,
            args: crate::symbol_table::syms_view(args@),
        },
    }
}

pub open spec fn instrs_view(s: Seq<Instruction>) -> Seq<InstructionV>
    decreases s,
{
    if s.len() == 0 {
        Seq::empty()
    } else {
        instrs_view(s.drop_last()).push(instr_view(s.last()))
    }
}


pub closed spec fn block_view(b: Block) -> Seq<InstructionV>
    decreases b,
{
    instrs_view(b.codes@)
}

impl View for Instruction {
    type V = InstructionV;

    open spec fn view(&self) -> InstructionV {
        instr_view(*self)
    }
}

/// The IR of one lexical scope: its instructions, in emission order.
#[derive(Debug, PartialEq)]
pub struct Block {
    codes: Vec<Instruction>,
}

impl View for Block {
    type V = Seq<InstructionV>;

    open spec fn view(&self) -> Seq<InstructionV> {
        block_view(*self)
    }
}

impl Block {
    pub fn new() -> (r: Self)
        ensures
            r@ == Seq::<InstructionV>::empty(),
    {
        let r = Block { codes: Vec::new() };
        proof {
            assert(r@ =~= Seq::<InstructionV>::empty());
        }
        r
    }

    pub fn add_instruction(&mut self, instruction: Instruction)
        ensures
            final(self)@ == old(self)@.push(instruction@),
    {
        self.codes.push(instruction);
        proof {
            assert(self.codes@.drop_last() =~= old(self).codes@);
            assert(self@ =~= old(self)@.push(instruction@));
        }
    }

    /// The instructions of this block, in emission order.
    pub fn instructions(&self) -> (r: &Vec<Instruction>)
        ensures
            instrs_view(r@) == self@,
    {
        &self.codes
    }
}

/// The binary instruction image a source operator maps to, if any;
/// the assignment operator has no binary-instruction mapping.
pub open spec fn binary_instruction_of(
    op: Operator,
    dst: SymbolV,
    left: SymbolV,
    right: SymbolV,
) -> Option<InstructionV> {
    match op {
        Operator::Assign => Option::None,
        _ => Option::Some(InstructionV::Binary { op, dst, left, right }),
    }
}

impl Instruction {
    /// The binary instruction for a source operator: total except for the
    /// assignment operator, which is a defensive syntax error.
    pub fn get_instruction_from_bin_op(
        op: Operator,
        dst: Symbol,
        a: Symbol,
        b: Symbol,
        loc: Location,
    ) -> (r: Result<Instruction, CompileError>)
        ensures
            match r {
                Ok(instr) => binary_instruction_of(op, dst@, a@, b@) == Option::Some(instr@),
                Err(e) => {
                    &&& op == Operator::Assign
                    &&& e@ == (CompileErrorV {
                        error: ErrorKindV::SyntaxError("Unreachable"@),
                        location: loc,
                    })
                },
            },
    {
        match op {
            Operator::Add => Ok(
                Instruction::Add { dst: Box::new(dst), left: Box::new(a), right: Box::new(b) },
            ),
            Operator::Sub => Ok(
                Instruction::Sub { dst: Box::new(dst), left: Box::new(a), right: Box::new(b) },
            ),
            Operator::Mul => Ok(
                Instruction::Mul { dst: Box::new(dst), left: Box::new(a), right: Box::new(b) },
            ),
            Operator::Div => Ok(
                Instruction::Div { dst: Box::new(dst), left: Box::new(a), right: Box::new(b) },
            ),
            Operator::Pow => Ok(
                Instruction::Pow { dst: Box::new(dst), left: Box::new(a), right: Box::new(b) },
            ),
            Operator::And => Ok(
                Instruction::And { dst: Box::new(dst), left: Box::new(a), right: Box::new(b) },
            ),
            Operator::Or => Ok(
                Instruction::Or { dst: Box::new(dst), left: Box::new(a), right: Box::new(b) },
            ),
            Operator::Lt => Ok(
                Instruction::Lt { dst: Box::new(dst), left: Box::new(a), right: Box::new(b) },
            ),
            Operator::Le => Ok(
                Instruction::Le { dst: Box::new(dst), left: Box::new(a), right: Box::new(b) },
            ),
            Operator::Gt => Ok(
                Instruction::Gt { dst: Box::new(dst), left: Box::new(a), right: Box::new(b) },
            ),
            Operator::Ge => Ok(
                Instruction::Ge { dst: Box::new(dst), left: Box::new(a), right: Box::new(b) },
            ),
            Operator::Eq => Ok(
                Instruction::Eq { dst: Box::new(dst), left: Box::new(a), right: Box::new(b) },
            ),
            Operator::NotEq => Ok(
                Instruction::NotEq { dst: Box::new(dst), left: Box::new(a), right: Box::new(b) },
            ),
            Operator::Assign => Err(
                CompileError {
                    error: CompileErrorType::SyntaxError("Unreachable".to_owned()),
                    location: loc,
                },
            ),
        }
    }
}

} // verus!
