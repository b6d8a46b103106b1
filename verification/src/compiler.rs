//! The compiler driver: a recursive descent over the syntax tree that
//! resolves names, checks types, lowers constructs into instructions, and
//! populates the contract registry. The whole pass is specified by the
//! `sp_*` functions below, a mathematical compiler over the tree's image;
//! the executable driver is proved to return exactly what they describe.
//! The driver is total and never panics: a tree shape that would underflow
//! the scope or block stacks, ask for a contract that was never declared,
//! or exhaust the temporary counter surfaces as a defensive syntax error
//! instead.
use crate::ast::{
    ExprTypeV, ExprV, Expression, ExpressionType, Location, Numeral, Program, ProgramV, Statement,
    StatementType, StmtTypeV, StmtV,
};
use crate::ast::{lemma_exprs_view, lemma_stmts_view, exprs_view, stmts_view};
use crate::error::{CompileError, CompileErrorType, CompileErrorV, ErrorKindV};
use crate::instruction::{Block, Instruction, InstructionV};
use crate::ordered_map::{om_contains, om_first_index, om_insert, OrderedMap};
use crate::symbol_table::{
    initial_ctx_v, lookup_tables, syms_view, temp_symbol_v, type_of, Context, Contract, ContractV,
    CtxV, Function, FunctionV, Symbol, SymbolV, Type,
};
use vstd::prelude::*;

verus! {

/// The whole compilation state: the contract registry and the working
/// memory of the driver.
pub struct StateV {
    pub contracts: Seq<(Seq<char>, ContractV)>,
    pub ctx: CtxV,
}

pub open spec fn initial_state_v() -> StateV {
    StateV { contracts: Seq::empty(), ctx: initial_ctx_v() }
}

pub open spec fn syn_err(msg: Seq<char>, loc: Location) -> CompileErrorV {
    CompileErrorV { error: ErrorKindV::SyntaxError(msg), location: loc }
}

pub open spec fn type_err(msg: Seq<char>, loc: Location) -> CompileErrorV {
    CompileErrorV { error: ErrorKindV::TypeError(msg), location: loc }
}

pub open spec fn with_member(st: StateV, m: bool) -> StateV {
    StateV { ctx: CtxV { is_member: m, ..st.ctx }, ..st }
}

/// Allocate a fresh temporary, unless the disambiguator counter is spent.
pub open spec fn sp_temp(st: StateV, loc: Location) -> Result<(StateV, SymbolV), CompileErrorV> {
    if st.ctx.temp_number >= u32::MAX {
        Err(syn_err("temporary counter exhausted"@, loc))
    } else {
        let n = st.ctx.temp_number + 1;
        Ok((StateV { ctx: CtxV { temp_number: n, ..st.ctx }, ..st }, temp_symbol_v(n)))
    }
}

/// Append an instruction to the innermost open block, if one is open.
pub open spec fn sp_emit(st: StateV, i: InstructionV, loc: Location) -> Result<
    StateV,
    CompileErrorV,
> {
    if st.ctx.codes.len() == 0 {
        Err(syn_err("no open block"@, loc))
    } else {
        Ok(
            StateV {
                ctx: CtxV {
                    codes: st.ctx.codes.update(
                        st.ctx.codes.len() - 1,
                        st.ctx.codes.last().push(i),
                    ),
                    ..st.ctx
                },
                ..st
            },
        )
    }
}

pub open spec fn empty_contract_v() -> ContractV {
    ContractV { member: Seq::empty(), functions: Seq::empty() }
}

/// Register a contract under its name (replacing an earlier one in place)
/// and make it current.
pub open spec fn sp_look_contract(st: StateV, name: Seq<char>) -> StateV {
    StateV {
        contracts: om_insert(st.contracts, name, empty_contract_v()),
        ctx: CtxV { current_contract: Option::Some(name), ..st.ctx },
    }
}

/// Attach a function to the current contract; with no current contract the
/// function is silently dropped, as the driver has always done.
pub open spec fn sp_add_function(
    st: StateV,
    name: Seq<char>,
    params: Seq<SymbolV>,
    ret: Type,
    codes: Seq<InstructionV>,
    loc: Location,
) -> Result<StateV, CompileErrorV> {
    match st.ctx.current_contract {
        Option::None => Ok(st),
        Option::Some(cname) => {
            let st1 = StateV {
                ctx: CtxV { current_function: Option::Some(name), ..st.ctx },
                ..st
            };
            if om_contains(st1.contracts, cname) {
                let i = om_first_index(st1.contracts, cname);
                let c = st1.contracts[i].1;
                let c2 = ContractV {
                    functions: om_insert(c.functions, name, FunctionV { params, codes, ret }),
                    ..c
                };
                Ok(
                    StateV {
                        contracts: st1.contracts.update(i, (st1.contracts[i].0, c2)),
                        ..st1
                    },
                )
            } else {
                Err(syn_err("no current contract"@, loc))
            }
        },
    }
}

/// Open a scope: an empty block and an empty symbol table, in lock-step.
pub open spec fn sp_open_scope(st: StateV) -> StateV {
    StateV {
        ctx: CtxV {
            codes: st.ctx.codes.push(Seq::empty()),
            tables: st.ctx.tables.push(Seq::empty()),
            ..st.ctx
        },
        ..st
    }
}

/// Close a scope: drop the innermost block and symbol table.
pub open spec fn sp_close_scope(st: StateV) -> StateV {
    StateV {
        ctx: CtxV {
            codes: st.ctx.codes.drop_last(),
            tables: if st.ctx.tables.len() > 0 {
                st.ctx.tables.drop_last()
            } else {
                st.ctx.tables
            },
            ..st.ctx
        },
        ..st
    }
}

/// The two literal bounds of a range node; any other node shape is a
/// defensive syntax error.
pub open spec fn sp_range(e: ExprV) -> Result<(Seq<char>, Seq<char>), CompileErrorV> {
    match e.node {
        ExprTypeV::Range { start, end } => Ok((start, end)),
        _ => Err(syn_err("Range Compile Error"@, e.location)),
    }
}

/// Compile one statement: the new state and the statement's value symbol.
pub open spec fn sp_stmt(st: StateV, s: StmtV) -> Result<(StateV, SymbolV), CompileErrorV>
    decreases s, 1int,
{
    match s.node {
        StmtTypeV::Function { function_name, parameters, expr, returns: rets } => {
            match sp_expr(with_member(st, false), *function_name) {
                Err(e) => Err(e),
                Ok((st1, name)) => match sp_params(st1, *parameters) {
                    Err(e) => Err(e),
                    Ok((st2, params)) => {
                        let typ = match rets {
                            Option::Some(t) => type_of(t),
                            Option::None => Type::NoneType,
                        };
                        match sp_block(st2, *expr) {
                            Err(e) => Err(e),
                            Ok((st3, codes)) => match sp_add_function(
                                st3,
                                name.id,
                                params,
                                typ,
                                codes,
                                s.location,
                            ) {
                                Err(e) => Err(e),
                                Ok(st4) => sp_temp(with_member(st4, true), s.location),
                            },
                        }
                    },
                },
            }
        },
        StmtTypeV::Contract { contract_name, members } => {
            match sp_expr(st, *contract_name) {
                Err(e) => Err(e),
                Ok((st1, name)) => {
                    let st2 = with_member(sp_look_contract(st1, name.id), true);
                    match sp_stmt(st2, *members) {
                        Err(e) => Err(e),
                        Ok((st3, _)) => sp_temp(with_member(st3, false), s.location),
                    }
                },
            }
        },
        StmtTypeV::Initializer { variable_type, variable, default } => {
            let typ = type_of(variable_type);
            match sp_expr(st, *variable) {
                Err(e) => Err(e),
                Ok((st1, sym0)) => {
                    let sym = if sym0.typ == Type::Undefined {
                        SymbolV { typ, ..sym0 }
                    } else {
                        sym0
                    };
                    if st1.ctx.is_member {
                        sp_insert_member(st1, sym, s.location)
                    } else {
                        let after = match default {
                            Option::Some(value) => match sp_expr(st1, *value) {
                                Err(e) => Err(e),
                                Ok((st2, src)) => sp_emit(
                                    st2,
                                    InstructionV::InitAssign { name: sym, src },
                                    s.location,
                                ),
                            },
                            Option::None => sp_emit(
                                st1,
                                InstructionV::Init { name: sym },
                                s.location,
                            ),
                        };
                        match after {
                            Err(e) => Err(e),
                            Ok(st3) => {
                                if st3.ctx.tables.len() == 0 {
                                    Err(syn_err("no open scope"@, s.location))
                                } else {
                                    Ok(
                                        (
                                            StateV {
                                                ctx: CtxV {
                                                    tables: st3.ctx.tables.update(
                                                        st3.ctx.tables.len() - 1,
                                                        om_insert(
                                                            st3.ctx.tables.last(),
                                                            sym.id,
                                                            sym,
                                                        ),
                                                    ),
                                                    ..st3.ctx
                                                },
                                                ..st3
                                            },
                                            sym,
                                        ),
                                    )
                                }
                            },
                        }
                    }
                },
            }
        },
        StmtTypeV::Member { statements } => match sp_stmts(st, statements) {
            Err(e) => Err(e),
            Ok(st1) => sp_temp(st1, s.location),
        },
        StmtTypeV::Expression { expression } => sp_expr(st, *expression),
    }
}

/// A member declaration becomes a slot of the current contract; no IR is
/// emitted.
pub open spec fn sp_insert_member(st: StateV, sym: SymbolV, loc: Location) -> Result<
    (StateV, SymbolV),
    CompileErrorV,
> {
    match st.ctx.current_contract {
        Option::None => Err(syn_err("no current contract"@, loc)),
        Option::Some(cname) => {
            if om_contains(st.contracts, cname) {
                let i = om_first_index(st.contracts, cname);
                let c = st.contracts[i].1;
                let c2 = ContractV { member: om_insert(c.member, sym.id, sym), ..c };
                Ok(
                    (
                        StateV { contracts: st.contracts.update(i, (st.contracts[i].0, c2)), ..st },
                        sym,
                    ),
                )
            } else {
                Err(syn_err("no current contract"@, loc))
            }
        },
    }
}

/// Compile a statement list in order, fail-fast.
pub open spec fn sp_stmts(st: StateV, ss: Seq<StmtV>) -> Result<StateV, CompileErrorV>
    decreases ss, 1int,
{
    if ss.len() == 0 {
        Ok(st)
    } else {
        match sp_stmt(st, ss[0]) {
            Err(e) => Err(e),
            Ok((st1, _)) => sp_stmts(st1, ss.subrange(1, ss.len() as int)),
        }
    }
}

/// Compile one expression: the new state and the expression's value symbol.
pub open spec fn sp_expr(st: StateV, e: ExprV) -> Result<(StateV, SymbolV), CompileErrorV>
    decreases e, 1int,
{
    match e.node {
        ExprTypeV::Compound { .. } => match sp_block(st, e) {
            Err(err) => Err(err),
            Ok((st1, _)) => sp_temp(st1, e.location),
        },
        ExprTypeV::Assign { left, operator: _, right } => match sp_expr(st, *left) {
            Err(err) => Err(err),
            Ok((st1, a)) => match sp_expr(st1, *right) {
                Err(err) => Err(err),
                Ok((st2, b)) => match sp_emit(
                    st2,
                    InstructionV::Assign { dst: a, src: b },
                    e.location,
                ) {
                    Err(err) => Err(err),
                    Ok(st3) => Ok((st3, a)),
                },
            },
        },
        ExprTypeV::Binary { left, operator, right } => match sp_expr(st, *left) {
            Err(err) => Err(err),
            Ok((st1, a)) => match sp_expr(st1, *right) {
                Err(err) => Err(err),
                Ok((st2, b)) => {
                    if a.typ != b.typ {
                        Err(type_err("Binary operation Type Error"@, e.location))
                    } else if st2.ctx.temp_number >= u32::MAX {
                        Err(syn_err("temporary counter exhausted"@, e.location))
                    } else {
                        let n = st2.ctx.temp_number + 1;
                        let st2b = StateV { ctx: CtxV { temp_number: n, ..st2.ctx }, ..st2 };
                        let dst = SymbolV { id: Seq::empty(), num: n, typ: a.typ };
                        match crate::instruction::binary_instruction_of(operator, dst, a, b) {
                            Option::None => Err(syn_err("Unreachable"@, e.location)),
                            Option::Some(iv) => match sp_emit(st2b, iv, e.location) {
                                Err(err) => Err(err),
                                Ok(st3) => Ok((st3, dst)),
                            },
                        }
                    }
                },
            },
        },
        ExprTypeV::FunctionCall { function_name, arguments } => match sp_expr(
            st,
            *function_name,
        ) {
            Err(err) => Err(err),
            Ok((st1, name)) => match sp_params(st1, *arguments) {
                Err(err) => Err(err),
                Ok((st2, args)) => match sp_temp(st2, e.location) {
                    Err(err) => Err(err),
                    Ok((st3, res)) => match sp_emit(
                        st3,
                        InstructionV::Call { dst: res, func: name, args },
                        e.location,
                    ) {
                        Err(err) => Err(err),
                        Ok(st4) => Ok((st4, res)),
                    },
                },
            },
        },
        ExprTypeV::If { condition, if_expr, else_expr } => match sp_expr(st, *condition) {
            Err(err) => Err(err),
            Ok((st1, cond)) => match sp_block(st1, *if_expr) {
                Err(err) => Err(err),
                Ok((st2, ifb)) => match sp_emit(
                    st2,
                    InstructionV::If { cond, block: ifb },
                    e.location,
                ) {
                    Err(err) => Err(err),
                    Ok(st3) => match else_expr {
                        Option::Some(ee) => match sp_block(st3, *ee) {
                            Err(err) => Err(err),
                            Ok((st4, eb)) => match sp_emit(
                                st4,
                                InstructionV::Else { cond, block: eb },
                                e.location,
                            ) {
                                Err(err) => Err(err),
                                Ok(st5) => sp_temp(st5, e.location),
                            },
                        },
                        Option::None => sp_temp(st3, e.location),
                    },
                },
            },
        },
        ExprTypeV::ForEach { iterator, vector, for_expr } => match sp_expr(st, *iterator) {
            Err(err) => Err(err),
            Ok((st1, iter)) => match sp_range(*vector) {
                Err(err) => Err(err),
                Ok((start, end)) => match sp_block(st1, *for_expr) {
                    Err(err) => Err(err),
                    Ok((st2, blk)) => match sp_emit(
                        st2,
                        InstructionV::For { iter, start, end, block: blk },
                        e.location,
                    ) {
                        Err(err) => Err(err),
                        Ok(st3) => sp_temp(st3, e.location),
                    },
                },
            },
        },
        ExprTypeV::Literal { value } => Ok(
            (st, SymbolV { id: value, num: 0, typ: Type::String }),
        ),
        ExprTypeV::Number { value } => Ok((st, SymbolV { id: value, num: 0, typ: Type::Uint })),
        ExprTypeV::Identifier { value } => Ok((st, lookup_tables(st.ctx.tables, value))),
        _ => Err(syn_err("Unreachable"@, e.location)),
    }
}

/// Compile a parameter list (declaration-producing) or an argument list
/// (value-producing); any other node here is a defensive syntax error.
pub open spec fn sp_params(st: StateV, e: ExprV) -> Result<(StateV, Seq<SymbolV>), CompileErrorV>
    decreases e, 1int,
{
    match e.node {
        ExprTypeV::Parameters { parameters } => sp_param_list(st, parameters, Seq::empty()),
        ExprTypeV::Arguments { arguments } => sp_arg_list(st, arguments, Seq::empty()),
        _ => Err(syn_err("Unreachable"@, e.location)),
    }
}

pub open spec fn sp_param_list(st: StateV, ss: Seq<StmtV>, acc: Seq<SymbolV>) -> Result<
    (StateV, Seq<SymbolV>),
    CompileErrorV,
>
    decreases ss, 1int,
{
    if ss.len() == 0 {
        Ok((st, acc))
    } else {
        match sp_stmt(st, ss[0]) {
            Err(e) => Err(e),
            Ok((st1, sym)) => sp_param_list(st1, ss.subrange(1, ss.len() as int), acc.push(sym)),
        }
    }
}

pub open spec fn sp_arg_list(st: StateV, es: Seq<ExprV>, acc: Seq<SymbolV>) -> Result<
    (StateV, Seq<SymbolV>),
    CompileErrorV,
>
    decreases es, 1int,
{
    if es.len() == 0 {
        Ok((st, acc))
    } else {
        match sp_expr(st, es[0]) {
            Err(e) => Err(e),
            Ok((st1, sym)) => sp_arg_list(st1, es.subrange(1, es.len() as int), acc.push(sym)),
        }
    }
}

/// Compile a compound expression into its own scope and yield the finished
/// block; any other node here is a defensive syntax error.
pub open spec fn sp_block(st: StateV, e: ExprV) -> Result<
    (StateV, Seq<InstructionV>),
    CompileErrorV,
>
    decreases e, 0int,
{
    match e.node {
        ExprTypeV::Compound { statements, return_value } => {
            match sp_stmts(sp_open_scope(st), statements) {
                Err(err) => Err(err),
                Ok(st2) => {
                    let after = match return_value {
                        Option::Some(r) => match sp_expr(st2, *r) {
                            Err(err) => Err(err),
                            Ok((st3, _)) => Ok(st3),
                        },
                        Option::None => Ok(st2),
                    };
                    match after {
                        Err(err) => Err(err),
                        Ok(st4) => {
                            if st4.ctx.codes.len() == 0 {
                                Err(syn_err("no open block"@, e.location))
                            } else {
                                Ok((sp_close_scope(st4), st4.ctx.codes.last()))
                            }
                        },
                    }
                },
            }
        },
        _ => Err(syn_err("Block Compile Error"@, e.location)),
    }
}

/// The whole pass: compile every global statement against a fresh state
/// and keep the contract registry.
pub open spec fn sp_program(p: ProgramV) -> Result<Seq<(Seq<char>, ContractV)>, CompileErrorV> {
    match p {
        ProgramV::GlobalStatements(ss) => match sp_stmts(initial_state_v(), ss) {
            Ok(st) => Ok(st.contracts),
            Err(e) => Err(e),
        },
    }
}

struct Compiler {
    contracts: OrderedMap<Contract>,
    context: Context,
}

impl View for Compiler {
    type V = StateV;

    closed spec fn view(&self) -> StateV {
        StateV { contracts: self.contracts@, ctx: self.context@ }
    }
}

impl Compiler {
    fn new() -> (r: Self)
        ensures
            r@ == initial_state_v(),
    {
        Compiler { contracts: OrderedMap::new(), context: Context::new() }
    }

    fn syntax_error(&self, msg: &str, loc: Location) -> (r: CompileError)
        ensures
            r@ == syn_err(msg@, loc),
    {
        CompileError { error: CompileErrorType::SyntaxError(msg.to_owned()), location: loc }
    }

    fn fresh_temp(&mut self, loc: Location) -> (r: Result<Symbol, CompileError>)
        ensures
            match (r, sp_temp(old(self)@, loc)) {
                (Ok(sym), Ok(p)) => final(self)@ == p.0 && sym@ == p.1,
                (Err(e), Err(ev)) => e@ == ev,
                _ => false,
            },
    {
        if self.context.temp_number == u32::MAX {
            Err(self.syntax_error("temporary counter exhausted", loc))
        } else {
            Ok(Symbol::temp_symbol(&mut self.context))
        }
    }

    fn emit(&mut self, instruction: Instruction, loc: Location) -> (r: Result<(), CompileError>)
        ensures
            match (r, sp_emit(old(self)@, instruction@, loc)) {
                (Ok(_), Ok(st)) => final(self)@ == st,
                (Err(e), Err(ev)) => e@ == ev,
                _ => false,
            },
    {
        if self.context.current_codes.len() == 0 {
            Err(self.syntax_error("no open block", loc))
        } else {
            self.context.add_instruction(instruction);
            Ok(())
        }
    }

    fn look_contract(&mut self, name: &String)
        ensures
            final(self)@ == sp_look_contract(old(self)@, name@),
    {
        self.contracts.insert(name.clone(), Contract::new());
        self.context.current_contract = Some(name.clone());
    }

    fn add_function(
        &mut self,
        name: &String,
        params: Vec<Symbol>,
        ret: Type,
        block: Block,
        loc: Location,
    ) -> (r: Result<(), CompileError>)
        ensures
            match (r, sp_add_function(old(self)@, name@, syms_view(params@), ret, block@, loc)) {
                (Ok(_), Ok(st)) => final(self)@ == st,
                (Err(e), Err(ev)) => e@ == ev,
                _ => false,
            },
    {
        let cname = match &self.context.current_contract {
            Some(c) => c.clone(),
            None => {
                return Ok(());
            },
        };
        self.context.current_function = Some(name.clone());
        let idx = match self.contracts.index_of(&cname) {
            Some(i) => i,
            None => {
                return Err(self.syntax_error("no current contract", loc));
            },
        };
        proof {
            crate::ordered_map::lemma_om_first_index(self@.contracts, cname@);
        }
        let mut c = self.contracts.swap_at(idx, Contract::new());
        c.add_function(name.clone(), Function::new(params, ret, block));
        let _ = self.contracts.swap_at(idx, c);
        proof {
            assert(self@.contracts =~= match sp_add_function(
                old(self)@,
                name@,
                syms_view(params@),
                ret,
                block@,
                loc,
            ) {
                Ok(st) => st.contracts,
                Err(_) => Seq::empty(),
            });
        }
        Ok(())
    }

    fn insert_member(&mut self, sym: Symbol, loc: Location) -> (r: Result<Symbol, CompileError>)
        ensures
            match (r, sp_insert_member(old(self)@, sym@, loc)) {
                (Ok(s), Ok(p)) => final(self)@ == p.0 && s@ == p.1,
                (Err(e), Err(ev)) => e@ == ev,
                _ => false,
            },
    {
        let cname = match &self.context.current_contract {
            Some(c) => c.clone(),
            None => {
                return Err(self.syntax_error("no current contract", loc));
            },
        };
        let idx = match self.contracts.index_of(&cname) {
            Some(i) => i,
            None => {
                return Err(self.syntax_error("no current contract", loc));
            },
        };
        proof {
            crate::ordered_map::lemma_om_first_index(self@.contracts, cname@);
        }
        let mut c = self.contracts.swap_at(idx, Contract::new());
        c.member.insert(sym.id.clone(), sym.clone());
        let _ = self.contracts.swap_at(idx, c);
        proof {
            assert(self@.contracts =~= match sp_insert_member(old(self)@, sym@, loc) {
                Ok(p) => p.0.contracts,
                Err(_) => Seq::empty(),
            });
        }
        Ok(sym)
    }

    fn compile_range(&self, expr: &Expression) -> (r: Result<(Numeral, Numeral), CompileError>)
        ensures
            match (r, sp_range(expr@)) {
                (Ok(p), Ok(sp)) => p.0@ == sp.0 && p.1@ == sp.1,
                (Err(e), Err(ev)) => e@ == ev,
                _ => false,
            },
    {
        if let ExpressionType::Range { start, end } = &expr.node {
            Ok((start.clone(), end.clone()))
        } else {
            Err(self.syntax_error("Range Compile Error", expr.location))
        }
    }

    #[verifier::loop_isolation(false)]
    #[verifier::rlimit(50)]
    fn compile_block(&mut self, expr: &Expression) -> (r: Result<Block, CompileError>)
        ensures
            match (r, sp_block(old(self)@, expr@)) {
                (Ok(b), Ok(p)) => final(self)@ == p.0 && b@ == p.1,
                (Err(e), Err(ev)) => e@ == ev,
                _ => false,
            },
        decreases *expr, 0int,
    {
        if let ExpressionType::CompoundExpression { statements, return_value } = &expr.node {
            self.context.add_block();
            let ghost st1 = self@;
            proof {
                assert(st1 == sp_open_scope(old(self)@));
                lemma_stmts_view(statements@);
            }
            let ghost ssv = stmts_view(statements@);
            let n = statements.len();
            proof {
                assert(ssv.subrange(0, n as int) =~= ssv);
            }
            for i in 0..n
                invariant
                    n == statements.len(),
                    ssv == stmts_view(statements@),
                    ssv.len() == n,
                    forall|j: int|
                        0 <= j < n ==> ssv[j] == crate::ast::stmt_view(#[trigger] statements@[j]),
                    sp_stmts(st1, ssv) == sp_stmts(self@, ssv.subrange(i as int, n as int)),
                decreases n - i,
            {
                let ghost pre = self@;
                let res = self.compile_stmt(&statements[i]);
                proof {
                    assert(ssv.subrange(i as int, n as int)[0] == ssv[i as int]);
                    assert(ssv.subrange(i as int, n as int).subrange(
                        1,
                        (n - i) as int,
                    ) =~= ssv.subrange(i as int + 1, n as int));
                }
                match res {
                    Ok(_) => {},
                    Err(e) => {
                        return Err(e);
                    },
                }
            }
            if let Some(ret) = return_value {
                match self.compile_expr(ret) {
                    Ok(_) => {},
                    Err(e) => {
                        return Err(e);
                    },
                }
            }
            if self.context.current_codes.len() == 0 {
                return Err(self.syntax_error("no open block", expr.location));
            }
            Ok(self.context.pop_block())
        } else {
            Err(self.syntax_error("Block Compile Error", expr.location))
        }
    }

    #[verifier::loop_isolation(false)]
    #[verifier::rlimit(50)]
    fn compile_param(&mut self, ast: &Expression) -> (r: Result<Vec<Symbol>, CompileError>)
        ensures
            match (r, sp_params(old(self)@, ast@)) {
                (Ok(v), Ok(p)) => final(self)@ == p.0 && syms_view(v@) == p.1,
                (Err(e), Err(ev)) => e@ == ev,
                _ => false,
            },
        decreases *ast, 1int,
    {
        match &ast.node {
            ExpressionType::Parameters { parameters } => {
                let ghost st0 = self@;
                let ghost ssv = stmts_view(parameters@);
                proof {
                    lemma_stmts_view(parameters@);
                    assert(ssv.subrange(0, ssv.len() as int) =~= ssv);
                    assert(syms_view(Seq::<Symbol>::empty()) =~= Seq::<SymbolV>::empty());
                }
                let n = parameters.len();
                let mut params: Vec<Symbol> = Vec::new();
                for i in 0..n
                    invariant
                        n == parameters.len(),
                        ssv == stmts_view(parameters@),
                        ssv.len() == n,
                        forall|j: int|
                            0 <= j < n ==> ssv[j] == crate::ast::stmt_view(
                                #[trigger] parameters@[j],
                            ),
                        sp_param_list(st0, ssv, Seq::empty()) == sp_param_list(
                            self@,
                            ssv.subrange(i as int, n as int),
                            syms_view(params@),
                        ),
                    decreases n - i,
                {
                    proof {
                        assert(ssv.subrange(i as int, n as int)[0] == ssv[i as int]);
                        assert(ssv.subrange(i as int, n as int).subrange(
                            1,
                            (n - i) as int,
                        ) =~= ssv.subrange(i as int + 1, n as int));
                    }
                    let ghost acc_pre = syms_view(params@);
                    match self.compile_stmt(&parameters[i]) {
                        Ok(sym) => {
                            params.push(sym);
                            proof {
                                assert(syms_view(params@) =~= acc_pre.push(params@.last()@));
                            }
                        },
                        Err(e) => {
                            return Err(e);
                        },
                    }
                }
                Ok(params)
            },
            ExpressionType::Arguments { arguments } => {
                let ghost st0 = self@;
                let ghost esv = exprs_view(arguments@);
                proof {
                    lemma_exprs_view(arguments@);
                    assert(esv.subrange(0, esv.len() as int) =~= esv);
                    assert(syms_view(Seq::<Symbol>::empty()) =~= Seq::<SymbolV>::empty());
                }
                let n = arguments.len();
                let mut args: Vec<Symbol> = Vec::new();
                for i in 0..n
                    invariant
                        n == arguments.len(),
                        esv == exprs_view(arguments@),
                        esv.len() == n,
                        forall|j: int|
                            0 <= j < n ==> esv[j] == crate::ast::expr_view(
                                #[trigger] arguments@[j],
                            ),
                        sp_arg_list(st0, esv, Seq::empty()) == sp_arg_list(
                            self@,
                            esv.subrange(i as int, n as int),
                            syms_view(args@),
                        ),
                    decreases n - i,
                {
                    proof {
                        assert(esv.subrange(i as int, n as int)[0] == esv[i as int]);
                        assert(esv.subrange(i as int, n as int).subrange(
                            1,
                            (n - i) as int,
                        ) =~= esv.subrange(i as int + 1, n as int));
                    }
                    let ghost acc_pre = syms_view(args@);
                    match self.compile_expr(&arguments[i]) {
                        Ok(sym) => {
                            args.push(sym);
                            proof {
                                assert(syms_view(args@) =~= acc_pre.push(args@.last()@));
                            }
                        },
                        Err(e) => {
                            return Err(e);
                        },
                    }
                }
                Ok(args)
            },
            _ => Err(self.syntax_error("Unreachable", ast.location)),
        }
    }

    #[verifier::loop_isolation(false)]
    #[verifier::rlimit(50)]
    fn compile_stmt(&mut self, stmt: &Statement) -> (r: Result<Symbol, CompileError>)
        ensures
            match (r, sp_stmt(old(self)@, stmt@)) {
                (Ok(sym), Ok(p)) => final(self)@ == p.0 && sym@ == p.1,
                (Err(e), Err(ev)) => e@ == ev,
                _ => false,
            },
        decreases *stmt, 1int,
    {
        match &stmt.node {
            StatementType::FunctionStatement { function_name, parameters, expr, returns: rets } => {
                self.context.is_member = false;
                proof {
                    assert(self@ == with_member(old(self)@, false));
                }
                let name = match self.compile_expr(function_name) {
                    Ok(s) => s,
                    Err(e) => {
                        return Err(e);
                    },
                };
                let params = match self.compile_param(parameters) {
                    Ok(p) => p,
                    Err(e) => {
                        return Err(e);
                    },
                };
                let typ = match rets {
                    Some(ret) => Type::get_type(ret),
                    None => Type::NoneType,
                };
                let block = match self.compile_block(expr) {
                    Ok(b) => b,
                    Err(e) => {
                        return Err(e);
                    },
                };
                match self.add_function(&name.id, params, typ, block, stmt.location) {
                    Ok(_) => {},
                    Err(e) => {
                        return Err(e);
                    },
                }
                self.context.is_member = true;
                self.fresh_temp(stmt.location)
            },
            StatementType::ContractStatement { contract_name, members } => {
                let name = match self.compile_expr(contract_name) {
                    Ok(s) => s,
                    Err(e) => {
                        return Err(e);
                    },
                };
                self.look_contract(&name.id);
                self.context.is_member = true;
                match self.compile_stmt(members) {
                    Ok(_) => {},
                    Err(e) => {
                        return Err(e);
                    },
                }
                self.context.is_member = false;
                self.fresh_temp(stmt.location)
            },
            StatementType::InitializerStatement { variable_type, variable, default } => {
                let typ = Type::get_type(variable_type);
                let mut symbol = match self.compile_expr(variable) {
                    Ok(s) => s,
                    Err(e) => {
                        return Err(e);
                    },
                };
                if symbol.typ == Type::Undefined {
                    symbol.typ = typ;
                }
                if self.context.is_member {
                    self.insert_member(symbol, stmt.location)
                } else {
                    match default {
                        Some(value) => {
                            let src = match self.compile_expr(value) {
                                Ok(s) => s,
                                Err(e) => {
                                    return Err(e);
                                },
                            };
                            match self.emit(
                                Instruction::InitAssign {
                                    name: Box::new(symbol.clone()),
                                    src: Box::new(src),
                                },
                                stmt.location,
                            ) {
                                Ok(_) => {},
                                Err(e) => {
                                    return Err(e);
                                },
                            }
                        },
                        None => {
                            match self.emit(
                                Instruction::Init { name: Box::new(symbol.clone()) },
                                stmt.location,
                            ) {
                                Ok(_) => {},
                                Err(e) => {
                                    return Err(e);
                                },
                            }
                        },
                    }
                    if self.context.tables.len() == 0 {
                        return Err(self.syntax_error("no open scope", stmt.location));
                    }
                    self.context.add_symbol(symbol.id.as_str(), symbol.clone());
                    Ok(symbol)
                }
            },
            StatementType::MemberStatement { statements } => {
                let ghost st0 = self@;
                let ghost ssv = stmts_view(statements@);
                proof {
                    lemma_stmts_view(statements@);
                    assert(ssv.subrange(0, ssv.len() as int) =~= ssv);
                }
                let n = statements.len();
                for i in 0..n
                    invariant
                        n == statements.len(),
                        ssv == stmts_view(statements@),
                        ssv.len() == n,
                        forall|j: int|
                            0 <= j < n ==> ssv[j] == crate::ast::stmt_view(
                                #[trigger] statements@[j],
                            ),
                        sp_stmts(st0, ssv) == sp_stmts(self@, ssv.subrange(i as int, n as int)),
                    decreases n - i,
                {
                    proof {
                        assert(ssv.subrange(i as int, n as int)[0] == ssv[i as int]);
                        assert(ssv.subrange(i as int, n as int).subrange(
                            1,
                            (n - i) as int,
                        ) =~= ssv.subrange(i as int + 1, n as int));
                    }
                    match self.compile_stmt(&statements[i]) {
                        Ok(_) => {},
                        Err(e) => {
                            return Err(e);
                        },
                    }
                }
                self.fresh_temp(stmt.location)
            },
            StatementType::Expression { expression } => self.compile_expr(expression),
        }
    }

    #[verifier::rlimit(50)]
    fn compile_expr(&mut self, expr: &Expression) -> (r: Result<Symbol, CompileError>)
        ensures
            match (r, sp_expr(old(self)@, expr@)) {
                (Ok(sym), Ok(p)) => final(self)@ == p.0 && sym@ == p.1,
                (Err(e), Err(ev)) => e@ == ev,
                _ => false,
            },
        decreases *expr, 1int,
    {
        match &expr.node {
            ExpressionType::CompoundExpression { .. } => {
                match self.compile_block(expr) {
                    Ok(_) => {},
                    Err(e) => {
                        return Err(e);
                    },
                }
                self.fresh_temp(expr.location)
            },
            ExpressionType::AssignExpression { left, operator: _, right } => {
                let a = match self.compile_expr(left) {
                    Ok(s) => s,
                    Err(e) => {
                        return Err(e);
                    },
                };
                let b = match self.compile_expr(right) {
                    Ok(s) => s,
                    Err(e) => {
                        return Err(e);
                    },
                };
                match self.emit(
                    Instruction::Assign { dst: Box::new(a.clone()), src: Box::new(b) },
                    expr.location,
                ) {
                    Ok(_) => Ok(a),
                    Err(e) => Err(e),
                }
            },
            ExpressionType::BinaryExpression { left, operator, right } => {
                let a = match self.compile_expr(left) {
                    Ok(s) => s,
                    Err(e) => {
                        return Err(e);
                    },
                };
                let b = match self.compile_expr(right) {
                    Ok(s) => s,
                    Err(e) => {
                        return Err(e);
                    },
                };
                if self.context.temp_number == u32::MAX && a.typ == b.typ {
                    return Err(self.syntax_error("temporary counter exhausted", expr.location));
                }
                let dst = match Symbol::result_symbol(
                    &mut self.context,
                    a.clone(),
                    b.clone(),
                    expr.location,
                ) {
                    Ok(s) => s,
                    Err(e) => {
                        return Err(e);
                    },
                };
                let res = match Instruction::get_instruction_from_bin_op(
                    *operator,
                    dst.clone(),
                    a,
                    b,
                    expr.location,
                ) {
                    Ok(i) => i,
                    Err(e) => {
                        return Err(e);
                    },
                };
                match self.emit(res, expr.location) {
                    Ok(_) => Ok(dst),
                    Err(e) => Err(e),
                }
            },
            ExpressionType::FunctionCallExpression { function_name, arguments } => {
                let name = match self.compile_expr(function_name) {
                    Ok(s) => s,
                    Err(e) => {
                        return Err(e);
                    },
                };
                let args = match self.compile_param(arguments) {
                    Ok(v) => v,
                    Err(e) => {
                        return Err(e);
                    },
                };
                let res = match self.fresh_temp(expr.location) {
                    Ok(s) => s,
                    Err(e) => {
                        return Err(e);
                    },
                };
                match self.emit(
                    Instruction::Call {
                        dst: Box::new(res.clone()),
                        func: Box::new(name),
                        args,
                    },
                    expr.location,
                ) {
                    Ok(_) => Ok(res),
                    Err(e) => Err(e),
                }
            },
            ExpressionType::IfExpression { condition, if_expr, else_expr } => {
                let cond = match self.compile_expr(condition) {
                    Ok(s) => s,
                    Err(e) => {
                        return Err(e);
                    },
                };
                let if_block = match self.compile_block(if_expr) {
                    Ok(b) => b,
                    Err(e) => {
                        return Err(e);
                    },
                };
                match self.emit(
                    Instruction::If { cond: Box::new(cond.clone()), block: Box::new(if_block) },
                    expr.location,
                ) {
                    Ok(_) => {},
                    Err(e) => {
                        return Err(e);
                    },
                }
                if let Some(else_expression) = else_expr {
                    let else_block = match self.compile_block(else_expression) {
                        Ok(b) => b,
                        Err(e) => {
                            return Err(e);
                        },
                    };
                    match self.emit(
                        Instruction::Else { cond: Box::new(cond), block: Box::new(else_block) },
                        expr.location,
                    ) {
                        Ok(_) => {},
                        Err(e) => {
                            return Err(e);
                        },
                    }
                }
                self.fresh_temp(expr.location)
            },
            ExpressionType::ForEachExpression { iterator, vector, for_expr } => {
                let iter = match self.compile_expr(iterator) {
                    Ok(s) => s,
                    Err(e) => {
                        return Err(e);
                    },
                };
                let (start, end) = match self.compile_range(vector) {
                    Ok(p) => p,
                    Err(e) => {
                        return Err(e);
                    },
                };
                let block = match self.compile_block(for_expr) {
                    Ok(b) => b,
                    Err(e) => {
                        return Err(e);
                    },
                };
                match self.emit(
                    Instruction::For { iter: Box::new(iter), start, end, block: Box::new(block) },
                    expr.location,
                ) {
                    Ok(_) => {},
                    Err(e) => {
                        return Err(e);
                    },
                }
                self.fresh_temp(expr.location)
            },
            ExpressionType::Literal { value } => Ok(Symbol::literal_symbol(value.clone())),
            ExpressionType::Number { value } => Ok(
                Symbol { id: value.text().clone(), num: 0, typ: Type::Uint },
            ),
            ExpressionType::Identifier { value } => Ok(self.context.get_symbol(value.as_str())),
            _ => Err(self.syntax_error("Unreachable", expr.location)),
        }
    }

    #[verifier::loop_isolation(false)]
    fn compile_program(&mut self, ast: &Program) -> (r: Result<(), CompileError>)
        ensures
            ({
                let sres = match (*ast)@ {
                    ProgramV::GlobalStatements(ss) => sp_stmts(old(self)@, ss),
                };
                match (r, sres) {
                    (Ok(_), Ok(st)) => final(self)@ == st,
                    (Err(e), Err(ev)) => e@ == ev,
                    _ => false,
                }
            }),
    {
        match ast {
            Program::GlobalStatements(stmts) => {
                let ghost st0 = self@;
                let ghost ssv = stmts_view(stmts@);
                proof {
                    lemma_stmts_view(stmts@);
                    assert(ssv.subrange(0, ssv.len() as int) =~= ssv);
                }
                let n = stmts.len();
                for i in 0..n
                    invariant
                        n == stmts.len(),
                        ssv == stmts_view(stmts@),
                        ssv.len() == n,
                        forall|j: int|
                            0 <= j < n ==> ssv[j] == crate::ast::stmt_view(#[trigger] stmts@[j]),
                        sp_stmts(st0, ssv) == sp_stmts(self@, ssv.subrange(i as int, n as int)),
                    decreases n - i,
                {
                    proof {
                        assert(ssv.subrange(i as int, n as int)[0] == ssv[i as int]);
                        assert(ssv.subrange(i as int, n as int).subrange(
                            1,
                            (n - i) as int,
                        ) =~= ssv.subrange(i as int + 1, n as int));
                    }
                    match self.compile_stmt(&stmts[i]) {
                        Ok(_) => {},
                        Err(e) => {
                            return Err(e);
                        },
                    }
                }
                Ok(())
            },
        }
    }
}

/// Compile a whole program: an insertion-ordered mapping from contract name
/// to compiled contract, or the first failure. The result is a function of
/// the tree's mathematical image alone, so compiling structurally identical
/// trees gives structurally identical output.
pub fn compile_program(program: &Program) -> (r: Result<OrderedMap<Contract>, CompileError>)
    ensures
        match (r, sp_program(program@)) {
            (Ok(m), Ok(cs)) => m@ == cs,
            (Err(e), Err(ev)) => e@ == ev,
            _ => false,
        },
{
    let mut compiler = Compiler::new();
    match compiler.compile_program(program) {
        Ok(_) => Ok(compiler.contracts),
        Err(e) => Err(e),
    }
}

} // verus!
