//! Types, symbols, the nested-scope symbol table, and the program model
//! (functions and contracts) that the compiler populates.
use crate::ast;
use crate::ast::Location;
use crate::error::{CompileError, CompileErrorType, CompileErrorV, ErrorKindV};
use crate::instruction::{Block, Instruction, InstructionV};
use crate::ordered_map::{om_contains, om_first_index, OrderedMap};
use vstd::prelude::*;

verus! {

/// The closed set of internal types. `NoneType` is the absence of a value
/// (a function returning nothing); `Undefined` marks a symbol whose
/// declaration was never found.
#[derive(Clone, Copy, PartialEq, Eq, Structural, Debug)]
pub enum Type {
    URL,
    JSON,
    Uint,
    Bool,
    Address,
    String,
    NoneType,
    Undefined,
}

/// The internal type a source-level annotation denotes.
pub open spec fn type_of(t: ast::Type) -> Type {
    match t {
        ast::Type::URL => Type::URL,
        ast::Type::JSON => Type::JSON,
        ast::Type::Uint => Type::Uint,
        ast::Type::Bool => Type::Bool,
        ast::Type::String => Type::String,
        ast::Type::Address => Type::Address,
    }
}

impl Type {
    /// Pure mapping from a source-level type annotation; no fallible paths.
    pub fn get_type(typ: &ast::Type) -> (r: Self)
        ensures
            r == type_of(*typ),
    {
        match typ {
            ast::Type::URL => Type::URL,
            ast::Type::JSON => Type::JSON,
            ast::Type::Uint => Type::Uint,
            ast::Type::Bool => Type::Bool,
            ast::Type::String => Type::String,
            ast::Type::Address => Type::Address,
        }
    }
}

/// A typed, disambiguated name: the operand form of the IR.
#[derive(Debug, PartialEq)]
pub struct Symbol {
    pub id: String,
    pub num: u32,
    pub typ: Type,
}

/// Mathematical image of a `Symbol`.
pub struct SymbolV {
    pub id: Seq<char>,
    pub num: nat,
    pub typ: Type,
}

impl View for Symbol {
    type V = SymbolV;

    open spec fn view(&self) -> SymbolV {
        SymbolV { id: self.id@, num: self.num as nat, typ: self.typ }
    }
}

impl Clone for Symbol {
    fn clone(&self) -> (r: Self)
        ensures
            r == *self,
    {
        Symbol { id: self.id.clone(), num: self.num, typ: self.typ }
    }
}

/// The symbol a fresh temporary gets: the placeholder name, the next
/// disambiguator, and no type yet.
pub open spec fn temp_symbol_v(num: nat) -> SymbolV {
    SymbolV { id: "_"@, num, typ: Type::NoneType }
}

impl Symbol {
    /// A fresh temporary: destination of any computed, unnamed value.
    pub fn temp_symbol(context: &mut Context) -> (r: Self)
        requires
            old(context)@.temp_number < u32::MAX,
        ensures
            final(context)@ == (CtxV { temp_number: old(context)@.temp_number + 1, ..old(context)@ }),
            r@ == temp_symbol_v(old(context)@.temp_number + 1),
    {
        Symbol { id: "_".to_owned(), num: context.numbering_temp(), typ: Type::NoneType }
    }

    /// A string literal, encoded as a String-typed symbol carrying its text.
    pub fn literal_symbol(literal: String) -> (r: Self)
        ensures
            r@ == (SymbolV { id: literal@, num: 0, typ: Type::String }),
    {
        Symbol { id: literal, num: 0, typ: Type::String }
    }

    /// The destination of a binary operation: a fresh temporary of the
    /// operands' shared type, or a type error when the types differ.
    pub fn result_symbol(context: &mut Context, a: Symbol, b: Symbol, loc: Location) -> (r: Result<
        Self,
        CompileError,
    >)
        requires
            a@.typ == b@.typ ==> old(context)@.temp_number < u32::MAX,
        ensures
            match r {
                Ok(sym) => {
                    &&& a@.typ == b@.typ
                    &&& final(context)@ == (CtxV {
                        temp_number: old(context)@.temp_number + 1,
                        ..old(context)@
                    })
                    &&& sym@ == (SymbolV {
                        id: Seq::<char>::empty(),
                        num: old(context)@.temp_number + 1,
                        typ: a@.typ,
                    })
                },
                Err(e) => {
                    &&& a@.typ != b@.typ
                    &&& *final(context) == *old(context)
                    &&& e@ == (CompileErrorV {
                        error: ErrorKindV::TypeError("Binary operation Type Error"@),
                        location: loc,
                    })
                },
            },
    {
        if a.typ == b.typ {
            let typ = b.typ;
            Ok(Symbol { id: String::new(), num: context.numbering_temp(), typ })
        } else {
            Err(
                CompileError {
                    error: CompileErrorType::TypeError("Binary operation Type Error".to_owned()),
                    location: loc,
                },
            )
        }
    }
}

/// The views of a sequence of symbols, pointwise.
pub open spec fn syms_view(s: Seq<Symbol>) -> Seq<SymbolV> {
    Seq::new(s.len(), |j: int| s[j]@)
}

/// One scope's symbol table: names declared in that scope, in order.
#[derive(Debug, PartialEq)]
pub struct SymbolTable {
    pub symbols: OrderedMap<Symbol>,
}

impl View for SymbolTable {
    type V = Seq<(Seq<char>, SymbolV)>;

    open spec fn view(&self) -> Seq<(Seq<char>, SymbolV)> {
        self.symbols@
    }
}

/// A named unit of computation: parameters, return type, body block.
#[derive(Debug, PartialEq)]
pub struct Function {
    params: Vec<Symbol>,
    codes: Block,
    ret: Type,
}

/// Mathematical image of a `Function`.
pub struct FunctionV {
    pub params: Seq<SymbolV>,
    pub codes: Seq<InstructionV>,
    pub ret: Type,
}

impl View for Function {
    type V = FunctionV;

    closed spec fn view(&self) -> FunctionV {
        FunctionV { params: syms_view(self.params@), codes: self.codes@, ret: self.ret }
    }
}

impl Function {
    pub fn new(params: Vec<Symbol>, ret: Type, codes: Block) -> (r: Self)
        ensures
            r@ == (FunctionV { params: syms_view(params@), codes: codes@, ret }),
    {
        Function { params, codes, ret }
    }

    /// The parameter symbols, in declaration order.
    pub fn parameters(&self) -> (r: &Vec<Symbol>)
        ensures
            syms_view(r@) == self@.params,
    {
        &self.params
    }

    /// The lowered body.
    pub fn body(&self) -> (r: &Block)
        ensures
            r@ == self@.codes,
    {
        &self.codes
    }

    /// The declared return type.
    pub fn return_type(&self) -> (r: Type)
        ensures
            r == self@.ret,
    {
        self.ret
    }
}

/// A top-level named entity: persistent members and functions, each in
/// declaration order.
#[derive(Debug, PartialEq)]
pub struct Contract {
    pub member: OrderedMap<Symbol>,
    pub functions: OrderedMap<Function>,
}

/// Mathematical image of a `Contract`.
pub struct ContractV {
    pub member: Seq<(Seq<char>, SymbolV)>,
    pub functions: Seq<(Seq<char>, FunctionV)>,
}

impl View for Contract {
    type V = ContractV;

    open spec fn view(&self) -> ContractV {
        ContractV { member: self.member@, functions: self.functions@ }
    }
}

impl Contract {
    pub fn new() -> (r: Self)
        ensures
            r@.member == Seq::<(Seq<char>, SymbolV)>::empty(),
            r@.functions == Seq::<(Seq<char>, FunctionV)>::empty(),
    {
        Contract { member: OrderedMap::new(), functions: OrderedMap::new() }
    }

    pub fn add_function(&mut self, name: String, func: Function)
        ensures
            final(self)@.member == old(self)@.member,
            final(self)@.functions == crate::ordered_map::om_insert(
                old(self)@.functions,
                name@,
                func@,
            ),
    {
        self.functions.insert(name, func);
    }
}

/// The view of an optional name.
pub open spec fn opt_name_view(o: Option<String>) -> Option<Seq<char>> {
    match o {
        Option::Some(s) => Option::Some(s@),
        Option::None => Option::None,
    }
}

/// Innermost-to-outermost lookup over the scope stack; a miss yields a
/// fresh Undefined-typed symbol carrying the name.
pub open spec fn lookup_tables(tables: Seq<Seq<(Seq<char>, SymbolV)>>, name: Seq<char>) -> SymbolV
    decreases tables.len(),
{
    if tables.len() == 0 {
        SymbolV { id: name, num: 0, typ: Type::Undefined }
    } else if om_contains(tables.last(), name) {
        tables.last()[om_first_index(tables.last(), name)].1
    } else {
        lookup_tables(tables.drop_last(), name)
    }
}

/// The compiler's working memory: scope stack, open-block stack, current
/// contract and function, temporary counter, and member-context flag.
#[derive(Debug)]
pub struct Context {
    pub tables: Vec<SymbolTable>,
    pub current_codes: Vec<Block>,
    pub current_contract: Option<String>,
    pub current_function: Option<String>,
    pub temp_number: u32,
    pub is_member: bool,
}

/// Mathematical image of a `Context`.
pub struct CtxV {
    pub tables: Seq<Seq<(Seq<char>, SymbolV)>>,
    pub codes: Seq<Seq<InstructionV>>,
    pub current_contract: Option<Seq<char>>,
    pub current_function: Option<Seq<char>>,
    pub temp_number: nat,
    pub is_member: bool,
}

impl View for Context {
    type V = CtxV;

    open spec fn view(&self) -> CtxV {
        CtxV {
            tables: Seq::new(self.tables@.len(), |j: int| self.tables@[j]@),
            codes: Seq::new(self.current_codes@.len(), |j: int| self.current_codes@[j]@),
            current_contract: opt_name_view(self.current_contract),
            current_function: opt_name_view(self.current_function),
            temp_number: self.temp_number as nat,
            is_member: self.is_member,
        }
    }
}

/// The state a fresh compilation starts from.
pub open spec fn initial_ctx_v() -> CtxV {
    CtxV {
        tables: Seq::empty(),
        codes: Seq::empty(),
        current_contract: Option::None,
        current_function: Option::None,
        temp_number: 0,
        is_member: false,
    }
}

impl Context {
    pub fn new() -> (r: Self)
        ensures
            r@ == initial_ctx_v(),
    {
        let r = Context {
            tables: Vec::new(),
            current_codes: Vec::new(),
            current_contract: None,
            current_function: None,
            temp_number: 0,
            is_member: false,
        };
        proof {
            assert(r@.tables =~= initial_ctx_v().tables);
            assert(r@.codes =~= initial_ctx_v().codes);
        }
        r
    }

    /// Append to the innermost open block.
    pub fn add_instruction(&mut self, instruction: Instruction)
        requires
            old(self)@.codes.len() > 0,
        ensures
            final(self)@ == (CtxV {
                codes: old(self)@.codes.update(
                    old(self)@.codes.len() - 1,
                    old(self)@.codes.last().push(instruction@),
                ),
                ..old(self)@
            }),
    {
        let mut b = self.current_codes.pop().unwrap();
        b.add_instruction(instruction);
        self.current_codes.push(b);
        proof {
            assert(self@.codes =~= old(self)@.codes.update(
                old(self)@.codes.len() - 1,
                old(self)@.codes.last().push(instruction@),
            ));
            assert(self@.tables =~= old(self)@.tables);
        }
    }

    /// Open a scope: push an empty block and an empty symbol table in
    /// lock-step.
    pub fn add_block(&mut self)
        ensures
            final(self)@ == (CtxV {
                codes: old(self)@.codes.push(Seq::empty()),
                tables: old(self)@.tables.push(Seq::empty()),
                ..old(self)@
            }),
    {
        self.current_codes.push(Block::new());
        self.tables.push(SymbolTable { symbols: OrderedMap::new() });
        proof {
            assert(self@.codes =~= old(self)@.codes.push(Seq::<InstructionV>::empty()));
            assert(self@.tables =~= old(self)@.tables.push(
                Seq::<(Seq<char>, SymbolV)>::empty(),
            ));
        }
    }

    /// Close a scope: pop the symbol table and return the finished block.
    pub fn pop_block(&mut self) -> (r: Block)
        requires
            old(self)@.codes.len() > 0,
        ensures
            r@ == old(self)@.codes.last(),
            final(self)@ == (CtxV {
                codes: old(self)@.codes.drop_last(),
                tables: if old(self)@.tables.len() > 0 {
                    old(self)@.tables.drop_last()
                } else {
                    old(self)@.tables
                },
                ..old(self)@
            }),
    {
        let _ = self.tables.pop();
        let r = self.current_codes.pop().unwrap();
        proof {
            assert(self@.codes =~= old(self)@.codes.drop_last());
            if old(self)@.tables.len() > 0 {
                assert(self@.tables =~= old(self)@.tables.drop_last());
            } else {
                assert(self@.tables =~= old(self)@.tables);
            }
        }
        r
    }

    /// The next value of the strictly increasing temporary counter.
    pub fn numbering_temp(&mut self) -> (r: u32)
        requires
            old(self)@.temp_number < u32::MAX,
        ensures
            final(self)@ == (CtxV { temp_number: old(self)@.temp_number + 1, ..old(self)@ }),
            r as nat == old(self)@.temp_number + 1,
    {
        self.temp_number = self.temp_number + 1;
        proof {
            assert(self@.tables =~= old(self)@.tables);
            assert(self@.codes =~= old(self)@.codes);
        }
        self.temp_number
    }

    /// Innermost-to-outermost lookup; a name found in no scope resolves to
    /// a fresh Undefined-typed symbol rather than an error.
    pub fn get_symbol(&self, name: &str) -> (r: Symbol)
        ensures
            r@ == lookup_tables(self@.tables, name@),
    {
        let key: String = name.to_owned();
        let n = self.tables.len();
        let mut idx = n;
        proof {
            assert(self@.tables.subrange(0, n as int) =~= self@.tables);
        }
        while idx > 0
            invariant
                idx <= n,
                n == self@.tables.len(),
                key@ == name@,
                lookup_tables(self@.tables, name@) == lookup_tables(
                    self@.tables.subrange(0, idx as int),
                    name@,
                ),
            decreases idx,
        {
            idx = idx - 1;
            proof {
                assert(self@.tables.subrange(0, idx + 1).last() == self@.tables[idx as int]);
                assert(self@.tables.subrange(0, idx + 1).drop_last() =~= self@.tables.subrange(
                    0,
                    idx as int,
                ));
            }
            match self.tables[idx].symbols.get(&key) {
                Some(sym) => {
                    return sym.clone();
                },
                None => {},
            }
        }
        proof {
            assert(self@.tables.subrange(0, 0) =~= Seq::<Seq<(Seq<char>, SymbolV)>>::empty());
        }
        Symbol { id: key, num: 0, typ: Type::Undefined }
    }

    /// Declare a name in the innermost scope, shadowing outer declarations.
    pub fn add_symbol(&mut self, name: &str, sym: Symbol)
        requires
            old(self)@.tables.len() > 0,
        ensures
            final(self)@ == (CtxV {
                tables: old(self)@.tables.update(
                    old(self)@.tables.len() - 1,
                    crate::ordered_map::om_insert(old(self)@.tables.last(), name@, sym@),
                ),
                ..old(self)@
            }),
    {
        let mut t = self.tables.pop().unwrap();
        t.symbols.insert(name.to_owned(), sym);
        self.tables.push(t);
        proof {
            assert(self@.tables =~= old(self)@.tables.update(
                old(self)@.tables.len() - 1,
                crate::ordered_map::om_insert(old(self)@.tables.last(), name@, sym@),
            ));
            assert(self@.codes =~= old(self)@.codes);
        }
    }
}

} // verus!
