//! The syntax tree that the compiler consumes: locations, statements,
//! expressions, operators and source-level types.
use vstd::prelude::*;
use vstd::string::StrSliceExecFns;

verus! {

/// A position in the source text, used to attribute errors.
#[derive(Clone, Copy, PartialEq, Eq, Structural, Debug)]
pub struct Location {
    pub row: usize,
    pub column: usize,
}

/// A syntax-tree node together with its source location.
#[derive(Debug, PartialEq)]
pub struct Located<T> {
    pub location: Location,
    pub node: T,
}

pub type Statement = Located<StatementType>;

pub type Expression = Located<ExpressionType>;

/// A whole source file: the list of its global statements.
#[derive(Debug, PartialEq)]
pub enum Program {
    GlobalStatements(Vec<Statement>),
}

#[derive(Debug, PartialEq)]
pub enum StatementType {
    FunctionStatement {
        function_name: Box<Expression>,
        parameters: Box<Expression>,
        expr: Box<Expression>,
        returns: Option<Type>,
    },
    ContractStatement {
        contract_name: Box<Expression>,
        members: Box<Statement>,
    },
    InitializerStatement {
        variable_type: Type,
        variable: Box<Expression>,
        default: Option<Box<Expression>>,
    },
    MemberStatement {
        statements: Vec<Statement>,
    },
    Expression {
        expression: Box<Expression>,
    },
}

#[derive(Debug, PartialEq)]
pub enum ExpressionType {
    CompoundExpression {
        statements: Vec<Statement>,
        return_value: Option<Box<Expression>>,
    },
    AssignExpression {
        left: Box<Expression>,
        operator: Operator,
        right: Box<Expression>,
    },
    BinaryExpression {
        left: Box<Expression>,
        operator: Operator,
        right: Box<Expression>,
    },
    FunctionCallExpression {
        function_name: Box<Expression>,
        arguments: Box<Expression>,
    },
    IfExpression {
        condition: Box<Expression>,
        if_expr: Box<Expression>,
        else_expr: Option<Box<Expression>>,
    },
    ForEachExpression {
        iterator: Box<Expression>,
        vector: Box<Expression>,
        for_expr: Box<Expression>,
    },
    Parameters {
        parameters: Vec<Statement>,
    },
    Arguments {
        arguments: Vec<Expression>,
    },
    Range {
        start: Numeral,
        end: Numeral,
    },
    Literal {
        value: String,
    },
    Number {
        value: Numeral,
    },
    Identifier {
        value: String,
    },
}

impl ExpressionType {
    /// The identifier's name, if this node is an identifier.
    pub fn identifier_name(&self) -> (r: Option<String>)
        ensures
            match *self {
                ExpressionType::Identifier { value } => {
                    &&& r is Some
                    &&& r->0@ == value@
                },
                _ => r is None,
            },
    {
        if let ExpressionType::Identifier { value } = self {
            Some(value.clone())
        } else {
            None
        }
    }
}

/// The operator of an assignment or of a binary expression.
#[derive(Clone, Copy, PartialEq, Eq, Structural, Debug)]
pub enum Operator {
    Add,
    Sub,
    Mul,
    Div,
    Pow,
    Assign,
    And,
    Or,
    Lt,
    Le,
    Gt,
    Ge,
    Eq,
    NotEq,
}

/// A source-level type annotation.
#[derive(Clone, Copy, PartialEq, Eq, Structural, Debug)]
pub enum Type {
    URL,
    JSON,
    Uint,
    Bool,
    String,
    Address,
}

/// Mathematical image of a `Statement`.
pub struct StmtV {
    pub location: Location,
    pub node: StmtTypeV,
}

/// Mathematical image of an `Expression`.
pub struct ExprV {
    pub location: Location,
    pub node: ExprTypeV,
}

/// Mathematical image of a `Program`.
pub enum ProgramV {
    GlobalStatements(Seq<StmtV>),
}

/// Mathematical image of a `StatementType`.
pub enum StmtTypeV {
    Function {
        function_name: Box<ExprV>,
        parameters: Box<ExprV>,
        expr: Box<ExprV>,
        returns: Option<Type>,
    },
    Contract { contract_name: Box<ExprV>, members: Box<StmtV> },
    Initializer { variable_type: Type, variable: Box<ExprV>, default: Option<Box<ExprV>> },
    Member { statements: Seq<StmtV> },
    Expression { expression: Box<ExprV> },
}

/// Mathematical image of an `ExpressionType`.
pub enum ExprTypeV {
    Compound { statements: Seq<StmtV>, return_value: Option<Box<ExprV>> },
    Assign { left: Box<ExprV>, operator: Operator, right: Box<ExprV> },
    Binary { left: Box<ExprV>, operator: Operator, right: Box<ExprV> },
    FunctionCall { function_name: Box<ExprV>, arguments: Box<ExprV> },
    If { condition: Box<ExprV>, if_expr: Box<ExprV>, else_expr: Option<Box<ExprV>> },
    ForEach { iterator: Box<ExprV>, vector: Box<ExprV>, for_expr: Box<ExprV> },
    Parameters { parameters: Seq<StmtV> },
    Arguments { arguments: Seq<ExprV> },
    Range { start: Seq<char>, end: Seq<char> },
    Literal { value: Seq<char> },
    Number { value: Seq<char> },
    Identifier { value: Seq<char> },
}

pub open spec fn stmt_view(s: Statement) -> StmtV
    decreases s, 1int,
{
    StmtV { location: s.location, node: stmt_type_view(s.node) }
}

pub open spec fn stmt_type_view(s: StatementType) -> StmtTypeV
    decreases s, 0int,
{
    match s {
        StatementType::FunctionStatement { function_name, parameters, expr, returns: rets } => {
            StmtTypeV::Function {
                function_name: Box::new(expr_view(*function_name)),
                parameters: Box::new(expr_view(*parameters)),
                expr: Box::new(expr_view(*expr)),
                returns: rets,
            }
        },
        StatementType::ContractStatement { contract_name, members } => StmtTypeV::Contract {
            contract_name: Box::new(expr_view(*contract_name)),
            members: Box::new(stmt_view(*members)),
        },
        StatementType::InitializerStatement { variable_type, variable, default } => {
            StmtTypeV::Initializer {
                variable_type,
                variable: Box::new(expr_view(*variable)),
                default: match default {
                    Option::Some(d) => Option::Some(Box::new(expr_view(*d))),
                    Option::None => Option::None,
                },
            }
        },
        StatementType::MemberStatement { statements } => StmtTypeV::Member {
            statements: stmts_view(statements@),
        },
        StatementType::Expression { expression } => StmtTypeV::Expression {
            expression: Box::new(expr_view(*expression)),
        },
    }
}

pub open spec fn expr_view(e: Expression) -> ExprV
    decreases e, 1int,
{
    ExprV { location: e.location, node: expr_type_view(e.node) }
}

pub open spec fn expr_type_view(e: ExpressionType) -> ExprTypeV
    decreases e, 0int,
{
    match e {
        ExpressionType::CompoundExpression { statements, return_value } => ExprTypeV::Compound {
            statements: stmts_view(statements@),
            return_value: match return_value {
                Option::Some(r) => Option::Some(Box::new(expr_view(*r))),
                Option::None => Option::None,
            },
        },
        ExpressionType::AssignExpression { left, operator, right } => ExprTypeV::Assign {
            left: Box::new(expr_view(*left)),
            operator,
            right: Box::new(expr_view(*right)),
        },
        ExpressionType::BinaryExpression { left, operator, right } => ExprTypeV::Binary {
            left: Box::new(expr_view(*left)),
            operator,
            right: Box::new(expr_view(*right)),
        },
        ExpressionType::FunctionCallExpression { function_name, arguments } => {
            ExprTypeV::FunctionCall {
                function_name: Box::new(expr_view(*function_name)),
                arguments: Box::new(expr_view(*arguments)),
            }
        },
        ExpressionType::IfExpression { condition, if_expr, else_expr } => ExprTypeV::If {
            condition: Box::new(expr_view(*condition)),
            if_expr: Box::new(expr_view(*if_expr)),
            else_expr: match else_expr {
                Option::Some(r) => Option::Some(Box::new(expr_view(*r))),
                Option::None => Option::None,
            },
        },
        ExpressionType::ForEachExpression { iterator, vector, for_expr } => ExprTypeV::ForEach {
            iterator: Box::new(expr_view(*iterator)),
            vector: Box::new(expr_view(*vector)),
            for_expr: Box::new(expr_view(*for_expr)),
        },
        ExpressionType::Parameters { parameters } => ExprTypeV::Parameters {
            parameters: stmts_view(parameters@),
        },
        ExpressionType::Arguments { arguments } => ExprTypeV::Arguments {
            arguments: exprs_view(arguments@),
        },
        ExpressionType::Range { start, end } => ExprTypeV::Range { start: start@, end: end@ },
        ExpressionType::Literal { value } => ExprTypeV::Literal { value: value@ },
        ExpressionType::Number { value } => ExprTypeV::Number { value: value@ },
        ExpressionType::Identifier { value } => ExprTypeV::Identifier { value: value@ },
    }
}

pub open spec fn stmts_view(s: Seq<Statement>) -> Seq<StmtV>
    decreases s, 1int,
{
    if s.len() == 0 {
        Seq::empty()
    } else {
        stmts_view(s.drop_last()).push(stmt_view(s.last()))
    }
}

pub open spec fn exprs_view(s: Seq<Expression>) -> Seq<ExprV>
    decreases s, 1int,
{
    if s.len() == 0 {
        Seq::empty()
    } else {
        exprs_view(s.drop_last()).push(expr_view(s.last()))
    }
}

/// `stmts_view` maps the sequence pointwise.
pub proof fn lemma_stmts_view(s: Seq<Statement>)
    ensures
        stmts_view(s).len() == s.len(),
        forall|i: int| 0 <= i < s.len() ==> stmts_view(s)[i] == stmt_view(#[trigger] s[i]),
    decreases s.len(),
{
    if s.len() > 0 {
        lemma_stmts_view(s.drop_last());
        assert forall|i: int| 0 <= i < s.len() implies stmts_view(s)[i] == stmt_view(
            #[trigger] s[i],
        ) by {
            if i < s.len() - 1 {
                assert(s.drop_last()[i] == s[i]);
                assert(stmts_view(s.drop_last())[i] == stmt_view(s.drop_last()[i]));
            }
        }
    }
}

/// `exprs_view` maps the sequence pointwise.
pub proof fn lemma_exprs_view(s: Seq<Expression>)
    ensures
        exprs_view(s).len() == s.len(),
        forall|i: int| 0 <= i < s.len() ==> exprs_view(s)[i] == expr_view(#[trigger] s[i]),
    decreases s.len(),
{
    if s.len() > 0 {
        lemma_exprs_view(s.drop_last());
        assert forall|i: int| 0 <= i < s.len() implies exprs_view(s)[i] == expr_view(
            #[trigger] s[i],
        ) by {
            if i < s.len() - 1 {
                assert(s.drop_last()[i] == s[i]);
                assert(exprs_view(s.drop_last())[i] == expr_view(s.drop_last()[i]));
            }
        }
    }
}

impl View for Located<StatementType> {
    type V = StmtV;

    open spec fn view(&self) -> StmtV {
        stmt_view(*self)
    }
}

impl View for Located<ExpressionType> {
    type V = ExprV;

    open spec fn view(&self) -> ExprV {
        expr_view(*self)
    }
}

impl View for Program {
    type V = ProgramV;

    open spec fn view(&self) -> ProgramV {
        match *self {
            Program::GlobalStatements(ref stmts) => ProgramV::GlobalStatements(stmts_view(stmts@)),
        }
    }
}

/// An arbitrary-precision unsigned integer constant, kept as the decimal
/// text that names it: nonempty, only decimal digits, and no leading zero
/// except for zero itself.
#[derive(Debug, PartialEq)]
pub struct Numeral {
    digits: String,
}

/// Whether a character sequence is canonical decimal text.
pub open spec fn is_decimal_text(s: Seq<char>) -> bool {
    &&& s.len() > 0
    &&& forall|i: int| 0 <= i < s.len() ==> '0' <= #[trigger] s[i] <= '9'
    &&& s.len() > 1 ==> s[0] != '0'
}

impl View for Numeral {
    type V = Seq<char>;

    closed spec fn view(&self) -> Seq<char> {
        self.digits@
    }
}

impl Numeral {
    /// The decimal text always satisfies the canonical-form invariant.
    pub closed spec fn wf(&self) -> bool {
        is_decimal_text(self@)
    }

    /// Accepts exactly the canonical decimal spellings of a value.
    pub fn from_text(text: String) -> (r: Option<Numeral>)
        ensures
            match r {
                Some(n) => is_decimal_text(text@) && n@ == text@ && n.wf(),
                None => !is_decimal_text(text@),
            },
    {
        let n = text.as_str().unicode_len();
        if n == 0 {
            return None;
        }
        if n > 1 && text.as_str().get_char(0) == '0' {
            return None;
        }
        for i in 0..n
            invariant
                n == text@.len(),
                forall|j: int| 0 <= j < i ==> '0' <= #[trigger] text@[j] <= '9',
        {
            let c = text.as_str().get_char(i);
            if c < '0' || c > '9' {
                return None;
            }
        }
        Some(Numeral { digits: text })
    }

    /// The decimal text of the value.
    pub fn text(&self) -> (r: &String)
        ensures
            r@ == self@,
    {
        &self.digits
    }

    pub fn clone(&self) -> (r: Numeral)
        ensures
            r@ == self@,
            r.wf() == self.wf(),
    {
        Numeral { digits: self.digits.clone() }
    }
}

} // verus!
