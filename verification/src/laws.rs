//! Laws of the lowering pass, stated over the mathematical compiler and
//! proved once and for all: what a binary expression compiles to, how the
//! temporary counter behaves, that compilation is deterministic, and how
//! undeclared names resolve.
use crate::ast::{ExprTypeV, ExprV, Operator, Program, StmtTypeV, StmtV};
use crate::compiler::{
    sp_block, sp_emit, sp_expr, sp_look_contract, sp_open_scope, sp_param_list, sp_params,
    sp_program, sp_stmt, sp_stmts, sp_temp, type_err, with_member, StateV,
};
use crate::instruction::InstructionV;
use crate::ordered_map::{lemma_om_first_index, om_contains, om_first_index};
use crate::symbol_table::{lookup_tables, ContractV, CtxV, SymbolV, Type};
use vstd::prelude::*;

verus! {

/// Compiling a binary expression whose operands compile to values of one
/// shared type emits exactly one instruction: the one matching the
/// operator, whose destination is a fresh temporary of that shared type and
/// whose left and right are the compiled operands, in order. The
/// expression's value is that destination.
pub proof fn lemma_binary_same_type(
    st: StateV,
    e: ExprV,
    l: ExprV,
    op: Operator,
    r: ExprV,
    st1: StateV,
    a: SymbolV,
    st2: StateV,
    b: SymbolV,
)
    requires
        e.node == (ExprTypeV::Binary { left: Box::new(l), operator: op, right: Box::new(r) }),
        sp_expr(st, l) == Ok::<(StateV, SymbolV), crate::error::CompileErrorV>((st1, a)),
        sp_expr(st1, r) == Ok::<(StateV, SymbolV), crate::error::CompileErrorV>((st2, b)),
        a.typ == b.typ,
        op != Operator::Assign,
        st2.ctx.temp_number < u32::MAX,
        st2.ctx.codes.len() > 0,
    ensures
        ({
            let dst = SymbolV { id: Seq::empty(), num: st2.ctx.temp_number + 1, typ: a.typ };
            let emitted = InstructionV::Binary { op, dst, left: a, right: b };
            &&& dst.typ == a.typ
            &&& sp_expr(st, e) == Ok::<(StateV, SymbolV), crate::error::CompileErrorV>(
                (
                    StateV {
                        ctx: CtxV {
                            temp_number: st2.ctx.temp_number + 1,
                            codes: st2.ctx.codes.update(
                                st2.ctx.codes.len() - 1,
                                st2.ctx.codes.last().push(emitted),
                            ),
                            ..st2.ctx
                        },
                        ..st2
                    },
                    dst,
                ),
            )
        }),
{
}

/// Compiling a binary expression whose operands compile to values of
/// different types fails with a type error at the expression's own
/// location; the failure aborts the compilation, so nothing is emitted.
pub proof fn lemma_binary_type_mismatch(
    st: StateV,
    e: ExprV,
    l: ExprV,
    op: Operator,
    r: ExprV,
    st1: StateV,
    a: SymbolV,
    st2: StateV,
    b: SymbolV,
)
    requires
        e.node == (ExprTypeV::Binary { left: Box::new(l), operator: op, right: Box::new(r) }),
        sp_expr(st, l) == Ok::<(StateV, SymbolV), crate::error::CompileErrorV>((st1, a)),
        sp_expr(st1, r) == Ok::<(StateV, SymbolV), crate::error::CompileErrorV>((st2, b)),
        a.typ != b.typ,
    ensures
        sp_expr(st, e) == Err::<(StateV, SymbolV), crate::error::CompileErrorV>(
            type_err("Binary operation Type Error"@, e.location),
        ),
{
}

/// Compiling is a pure function of the tree's mathematical image: two
/// structurally identical trees compile to structurally identical results.
/// Together with `compile_program`'s contract, two calls on trees with
/// equal views return view-equal outputs.
pub proof fn lemma_compile_deterministic(p1: Program, p2: Program)
    requires
        p1@ == p2@,
    ensures
        sp_program(p1@) == sp_program(p2@),
{
}

/// A name bound in no scope of the stack resolves to a fresh
/// Undefined-typed symbol carrying that name: resolution failure is
/// deferred, never an error at the point of reference.
pub proof fn lemma_lookup_miss(tables: Seq<Seq<(Seq<char>, SymbolV)>>, name: Seq<char>)
    requires
        forall|i: int| 0 <= i < tables.len() ==> !om_contains(#[trigger] tables[i], name),
    ensures
        lookup_tables(tables, name) == (SymbolV { id: name, num: 0, typ: Type::Undefined }),
    decreases tables.len(),
{
    if tables.len() > 0 {
        assert(tables.last() == tables[tables.len() - 1]);
        assert forall|i: int| 0 <= i < tables.drop_last().len() implies !om_contains(
            #[trigger] tables.drop_last()[i],
            name,
        ) by {
            assert(tables.drop_last()[i] == tables[i]);
        }
        lemma_lookup_miss(tables.drop_last(), name);
    }
}

/// An identifier that was never declared in any enclosing scope compiles to
/// an Undefined-typed symbol, with the state untouched.
pub proof fn lemma_undeclared_identifier(st: StateV, e: ExprV, name: Seq<char>)
    requires
        e.node == (ExprTypeV::Identifier { value: name }),
        forall|i: int| 0 <= i < st.ctx.tables.len() ==> !om_contains(#[trigger] st.ctx.tables[i], name),
    ensures
        sp_expr(st, e) == Ok::<(StateV, SymbolV), crate::error::CompileErrorV>(
            (st, SymbolV { id: name, num: 0, typ: Type::Undefined }),
        ),
{
    lemma_lookup_miss(st.ctx.tables, name);
}

/// Fresh-temporary allocation: the allocated disambiguator is one above the
/// counter, so it exceeds every disambiguator allocated before it, and the
/// counter moves up to it.
pub proof fn lemma_temp_allocation(st: StateV, loc: crate::ast::Location)
    requires
        st.ctx.temp_number < u32::MAX,
    ensures
        sp_temp(st, loc) is Ok,
        ({
            let p = sp_temp(st, loc)->Ok_0;
            &&& p.1.num == st.ctx.temp_number + 1
            &&& p.0.ctx.temp_number == p.1.num
            &&& p.1.num > st.ctx.temp_number
        }),
{
}

/// Whether a statement is a member variable declaration: an initializer
/// whose target is an identifier.
pub open spec fn is_member_decl(d: StmtV) -> bool {
    match d.node {
        StmtTypeV::Initializer { variable_type: _, variable, default: _ } => (
        *variable).node matches ExprTypeV::Identifier { .. },
        _ => false,
    }
}

pub open spec fn member_decl_name(d: StmtV) -> Seq<char> {
    match d.node {
        StmtTypeV::Initializer { variable, .. } => match (*variable).node {
            ExprTypeV::Identifier { value } => value,
            _ => Seq::empty(),
        },
        _ => Seq::empty(),
    }
}

pub open spec fn member_decl_type(d: StmtV) -> Type {
    match d.node {
        StmtTypeV::Initializer { variable_type, .. } => crate::symbol_table::type_of(
            variable_type,
        ),
        _ => Type::Undefined,
    }
}

/// The member-mapping entry a declaration produces: its name bound to a
/// named symbol of the declared type.
pub open spec fn member_decl_entry(d: StmtV) -> (Seq<char>, SymbolV) {
    (
        member_decl_name(d),
        SymbolV { id: member_decl_name(d), num: 0, typ: member_decl_type(d) },
    )
}

pub open spec fn member_entries(ds: Seq<StmtV>) -> Seq<(Seq<char>, SymbolV)> {
    Seq::new(ds.len(), |i: int| member_decl_entry(ds[i]))
}

/// Folding member declarations over a registered contract: each adds its
/// entry to that contract's member mapping, in order, and nothing else in
/// the state moves — in particular no instruction is emitted.
#[verifier::rlimit(50)]
proof fn lemma_member_decls_fold(st: StateV, cn: Seq<char>, decls: Seq<StmtV>)
    requires
        st.ctx.is_member,
        st.ctx.tables.len() == 0,
        st.ctx.current_contract == Option::Some(cn),
        om_contains(st.contracts, cn),
        forall|i: int| 0 <= i < decls.len() ==> is_member_decl(#[trigger] decls[i]),
        forall|i: int, j: int|
            0 <= i < j < decls.len() ==> member_decl_name(decls[i]) != member_decl_name(decls[j]),
        forall|i: int|
            0 <= i < decls.len() ==> !om_contains(
                st.contracts[om_first_index(st.contracts, cn)].1.member,
                member_decl_name(#[trigger] decls[i]),
            ),
    ensures
        sp_stmts(st, decls) is Ok,
        sp_stmts(st, decls) matches Ok(st2) ==> {
            let i0 = om_first_index(st.contracts, cn);
            &&& st2.ctx == st.ctx
            &&& st2.contracts.len() == st.contracts.len()
            &&& forall|j: int|
                0 <= j < st.contracts.len() && j != i0 ==> st2.contracts[j] == st.contracts[j]
            &&& st2.contracts[i0].0 == st.contracts[i0].0
            &&& st2.contracts[i0].1.functions == st.contracts[i0].1.functions
            &&& st2.contracts[i0].1.member == st.contracts[i0].1.member + member_entries(decls)
        },
    decreases decls.len(),
{
    lemma_om_first_index(st.contracts, cn);
    let i0 = om_first_index(st.contracts, cn);
    if decls.len() == 0 {
        assert(st.contracts[i0].1.member + member_entries(decls) =~= st.contracts[i0].1.member);
    } else {
        let d = decls[0];
        let name = member_decl_name(d);
        let sym = SymbolV { id: name, num: 0, typ: member_decl_type(d) };
        assert(is_member_decl(d));
        assert(lookup_tables(st.ctx.tables, name) == (SymbolV {
            id: name,
            num: 0,
            typ: Type::Undefined,
        }));
        let c = st.contracts[i0].1;
        assert(!om_contains(c.member, name));
        let c2 = ContractV { member: c.member.push((name, sym)), ..c };
        let st1 = StateV {
            contracts: st.contracts.update(i0, (st.contracts[i0].0, c2)),
            ..st
        };
        assert(d.node matches StmtTypeV::Initializer { .. });
        let vbl = match d.node {
            StmtTypeV::Initializer { variable, .. } => *variable,
            _ => arbitrary(),
        };
        assert(vbl.node == (ExprTypeV::Identifier { value: name }));
        assert(sp_expr(st, vbl) == Ok::<(StateV, SymbolV), crate::error::CompileErrorV>(
            (st, SymbolV { id: name, num: 0, typ: Type::Undefined }),
        ));
        assert(crate::compiler::sp_insert_member(st, sym, d.location) == Ok::<
            (StateV, SymbolV),
            crate::error::CompileErrorV,
        >((st1, sym)));
        assert(sp_stmt(st, d) == Ok::<(StateV, SymbolV), crate::error::CompileErrorV>((st1, sym)));
        // The contract keeps its position and its key under the update.
        assert forall|j: int| 0 <= j < i0 implies (#[trigger] st1.contracts[j]).0 != cn by {
            assert(st1.contracts[j] == st.contracts[j]);
        }
        crate::ordered_map::lemma_om_first_index_at(st1.contracts, cn, i0);
        let rest = decls.subrange(1, decls.len() as int);
        assert forall|i: int|
            0 <= i < rest.len() implies !om_contains(
                st1.contracts[om_first_index(st1.contracts, cn)].1.member,
                member_decl_name(#[trigger] rest[i]),
            ) by {
            assert(rest[i] == decls[i + 1]);
            assert(member_decl_name(decls[i + 1]) != name);
            crate::ordered_map::lemma_om_contains_push(
                c.member,
                name,
                sym,
                member_decl_name(decls[i + 1]),
            );
        }
        lemma_member_decls_fold(st1, cn, rest);
        if let Ok(st2) = sp_stmts(st1, rest) {
            assert(st2.contracts[i0].1.member =~= st.contracts[i0].1.member + member_entries(
                decls,
            )) by {
                assert(st2.contracts[i0].1.member == c.member.push((name, sym)) + member_entries(
                    rest,
                ));
                assert forall|k: int| 0 <= k < rest.len() implies member_entries(rest)[k]
                    == member_decl_entry(decls[k + 1]) by {
                    assert(rest[k] == decls[k + 1]);
                }
            }
        }
    }
}

/// A contract statement that declares only member variables (with pairwise
/// distinct names) compiles to a contract whose function mapping is empty
/// and whose member mapping holds one entry per declaration, in declaration
/// order; the open-block stack is untouched, so no Init or InitAssign
/// instruction — indeed no instruction at all — is emitted anywhere.
#[verifier::rlimit(50)]
pub proof fn lemma_contract_of_only_declarations(
    st: StateV,
    s: StmtV,
    cname_e: ExprV,
    ms: StmtV,
    cn: Seq<char>,
    decls: Seq<StmtV>,
)
    requires
        s.node == (StmtTypeV::Contract {
            contract_name: Box::new(cname_e),
            members: Box::new(ms),
        }),
        cname_e.node == (ExprTypeV::Identifier { value: cn }),
        ms.node == (StmtTypeV::Member { statements: decls }),
        st.ctx.tables.len() == 0,
        st.ctx.temp_number + 2 <= u32::MAX,
        forall|i: int| 0 <= i < decls.len() ==> is_member_decl(#[trigger] decls[i]),
        forall|i: int, j: int|
            0 <= i < j < decls.len() ==> member_decl_name(decls[i]) != member_decl_name(decls[j]),
    ensures
        sp_stmt(st, s) is Ok,
        sp_stmt(st, s) matches Ok(p) ==> {
            let cs1 = crate::ordered_map::om_insert(
                st.contracts,
                cn,
                crate::compiler::empty_contract_v(),
            );
            let i0 = om_first_index(cs1, cn);
            &&& 0 <= i0 < p.0.contracts.len()
            &&& p.0.contracts.len() == cs1.len()
            &&& forall|j: int| 0 <= j < cs1.len() && j != i0 ==> p.0.contracts[j] == cs1[j]
            &&& p.0.contracts[i0].0 == cn
            &&& p.0.contracts[i0].1.functions == Seq::<(
                Seq<char>,
                crate::symbol_table::FunctionV,
            )>::empty()
            &&& p.0.contracts[i0].1.member == member_entries(decls)
            &&& p.0.ctx.codes == st.ctx.codes
            &&& p.0.ctx.tables == st.ctx.tables
        },
{
    reveal_with_fuel(sp_stmt, 3);
    lemma_lookup_miss(st.ctx.tables, cn);
    let st2 = with_member(sp_look_contract(st, cn), true);
    let cs1 = crate::ordered_map::om_insert(st.contracts, cn, crate::compiler::empty_contract_v());
    assert(st2.contracts == cs1);
    assert(sp_expr(st, cname_e) == Ok::<(StateV, SymbolV), crate::error::CompileErrorV>(
        (st, SymbolV { id: cn, num: 0, typ: Type::Undefined }),
    ));
    // The freshly registered contract is present, at the first index of its
    // name.
    lemma_om_first_index(st.contracts, cn);
    if om_contains(st.contracts, cn) {
        let iold = om_first_index(st.contracts, cn);
        assert forall|j: int| 0 <= j < iold implies (#[trigger] cs1[j]).0 != cn by {
            assert(cs1[j] == st.contracts[j]);
        }
        crate::ordered_map::lemma_om_first_index_at(cs1, cn, iold);
    } else {
        crate::ordered_map::lemma_om_first_index_at(cs1, cn, st.contracts.len() as int);
    }
    let i0 = om_first_index(cs1, cn);
    assert(cs1[i0].1 == crate::compiler::empty_contract_v());
    assert forall|i: int|
        0 <= i < decls.len() implies !om_contains(
            cs1[i0].1.member,
            member_decl_name(#[trigger] decls[i]),
        ) by {
        lemma_om_first_index(cs1[i0].1.member, member_decl_name(decls[i]));
    }
    lemma_member_decls_fold(st2, cn, decls);
    if let Ok(st3) = sp_stmts(st2, decls) {
        assert(st3.contracts[i0].1.member =~= member_entries(decls));
        assert(st3.ctx == st2.ctx);
        let r1 = sp_temp(st3, ms.location);
        assert(r1 is Ok);
        let st4 = r1->Ok_0.0;
        assert(sp_stmt(st2, ms) == Ok::<(StateV, SymbolV), crate::error::CompileErrorV>(
            (st4, r1->Ok_0.1),
        ));
        let r2 = sp_temp(with_member(st4, false), s.location);
        assert(r2 is Ok);
        assert(sp_stmt(st, s) == Ok::<(StateV, SymbolV), crate::error::CompileErrorV>(
            (r2->Ok_0.0, r2->Ok_0.1),
        ));
        assert(r2->Ok_0.0.contracts == st3.contracts);
        assert(r2->Ok_0.0.ctx.codes == st.ctx.codes);
        assert(r2->Ok_0.0.ctx.tables == st.ctx.tables);
    }
}
/// With `lemma_temp_allocation`, the disambiguators a compilation allocates
/// are strictly increasing in allocation order and thus all distinct.
pub proof fn lemma_counter_monotone_stmt(st: StateV, s: StmtV)
    ensures
        sp_stmt(st, s) matches Ok(p) ==> p.0.ctx.temp_number >= st.ctx.temp_number,
    decreases s, 1int,
{
    match s.node {
        StmtTypeV::Function { function_name, parameters, expr, returns: rets } => {
            lemma_counter_monotone_expr(with_member(st, false), *function_name);
            if let Ok((st1, _)) = sp_expr(with_member(st, false), *function_name) {
                lemma_counter_monotone_params(st1, *parameters);
                if let Ok((st2, _)) = sp_params(st1, *parameters) {
                    lemma_counter_monotone_block(st2, *expr);
                }
            }
        },
        StmtTypeV::Contract { contract_name, members } => {
            lemma_counter_monotone_expr(st, *contract_name);
            if let Ok((st1, name)) = sp_expr(st, *contract_name) {
                let st2 = with_member(sp_look_contract(st1, name.id), true);
                lemma_counter_monotone_stmt(st2, *members);
            }
        },
        StmtTypeV::Initializer { variable_type, variable, default } => {
            lemma_counter_monotone_expr(st, *variable);
            if let Ok((st1, _)) = sp_expr(st, *variable) {
                if let Option::Some(value) = default {
                    lemma_counter_monotone_expr(st1, *value);
                }
            }
        },
        StmtTypeV::Member { statements } => {
            lemma_counter_monotone_stmts(st, statements);
        },
        StmtTypeV::Expression { expression } => {
            lemma_counter_monotone_expr(st, *expression);
        },
    }
}

pub proof fn lemma_counter_monotone_stmts(st: StateV, ss: Seq<StmtV>)
    ensures
        sp_stmts(st, ss) matches Ok(st2) ==> st2.ctx.temp_number >= st.ctx.temp_number,
    decreases ss, 1int,
{
    if ss.len() > 0 {
        lemma_counter_monotone_stmt(st, ss[0]);
        if let Ok((st1, _)) = sp_stmt(st, ss[0]) {
            lemma_counter_monotone_stmts(st1, ss.subrange(1, ss.len() as int));
        }
    }
}

pub proof fn lemma_counter_monotone_expr(st: StateV, e: ExprV)
    ensures
        sp_expr(st, e) matches Ok(p) ==> p.0.ctx.temp_number >= st.ctx.temp_number,
    decreases e, 1int,
{
    match e.node {
        ExprTypeV::Compound { .. } => {
            lemma_counter_monotone_block(st, e);
        },
        ExprTypeV::Assign { left, operator: _, right } => {
            lemma_counter_monotone_expr(st, *left);
            if let Ok((st1, _)) = sp_expr(st, *left) {
                lemma_counter_monotone_expr(st1, *right);
            }
        },
        ExprTypeV::Binary { left, operator, right } => {
            lemma_counter_monotone_expr(st, *left);
            if let Ok((st1, _)) = sp_expr(st, *left) {
                lemma_counter_monotone_expr(st1, *right);
            }
        },
        ExprTypeV::FunctionCall { function_name, arguments } => {
            lemma_counter_monotone_expr(st, *function_name);
            if let Ok((st1, _)) = sp_expr(st, *function_name) {
                lemma_counter_monotone_params(st1, *arguments);
            }
        },
        ExprTypeV::If { condition, if_expr, else_expr } => {
            lemma_counter_monotone_expr(st, *condition);
            if let Ok((st1, cond)) = sp_expr(st, *condition) {
                lemma_counter_monotone_block(st1, *if_expr);
                if let Ok((st2, ifb)) = sp_block(st1, *if_expr) {
                    if let Ok(st3) = sp_emit(
                        st2,
                        InstructionV::If { cond, block: ifb },
                        e.location,
                    ) {
                        if let Option::Some(ee) = else_expr {
                            lemma_counter_monotone_block(st3, *ee);
                        }
                    }
                }
            }
        },
        ExprTypeV::ForEach { iterator, vector, for_expr } => {
            lemma_counter_monotone_expr(st, *iterator);
            if let Ok((st1, _)) = sp_expr(st, *iterator) {
                lemma_counter_monotone_block(st1, *for_expr);
            }
        },
        _ => {},
    }
}

pub proof fn lemma_counter_monotone_params(st: StateV, e: ExprV)
    ensures
        sp_params(st, e) matches Ok(p) ==> p.0.ctx.temp_number >= st.ctx.temp_number,
    decreases e, 1int,
{
    match e.node {
        ExprTypeV::Parameters { parameters } => {
            lemma_counter_monotone_param_list(st, parameters, Seq::empty());
        },
        ExprTypeV::Arguments { arguments } => {
            lemma_counter_monotone_arg_list(st, arguments, Seq::empty());
        },
        _ => {},
    }
}

pub proof fn lemma_counter_monotone_param_list(st: StateV, ss: Seq<StmtV>, acc: Seq<SymbolV>)
    ensures
        sp_param_list(st, ss, acc) matches Ok(p) ==> p.0.ctx.temp_number >= st.ctx.temp_number,
    decreases ss, 1int,
{
    if ss.len() > 0 {
        lemma_counter_monotone_stmt(st, ss[0]);
        if let Ok((st1, sym)) = sp_stmt(st, ss[0]) {
            lemma_counter_monotone_param_list(st1, ss.subrange(1, ss.len() as int), acc.push(sym));
        }
    }
}

pub proof fn lemma_counter_monotone_arg_list(st: StateV, es: Seq<ExprV>, acc: Seq<SymbolV>)
    ensures
        crate::compiler::sp_arg_list(st, es, acc) matches Ok(p) ==> p.0.ctx.temp_number
            >= st.ctx.temp_number,
    decreases es, 1int,
{
    if es.len() > 0 {
        lemma_counter_monotone_expr(st, es[0]);
        if let Ok((st1, sym)) = sp_expr(st, es[0]) {
            lemma_counter_monotone_arg_list(st1, es.subrange(1, es.len() as int), acc.push(sym));
        }
    }
}

pub proof fn lemma_counter_monotone_block(st: StateV, e: ExprV)
    ensures
        sp_block(st, e) matches Ok(p) ==> p.0.ctx.temp_number >= st.ctx.temp_number,
    decreases e, 0int,
{
    match e.node {
        ExprTypeV::Compound { statements, return_value } => {
            lemma_counter_monotone_stmts(sp_open_scope(st), statements);
            if let Ok(st2) = sp_stmts(sp_open_scope(st), statements) {
                if let Option::Some(r) = return_value {
                    lemma_counter_monotone_expr(st2, *r);
                }
            }
        },
        _ => {},
    }
}

} // verus!
