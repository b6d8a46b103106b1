use ziraffe_compiler::ast::{
    Expression, ExpressionType, Located, Location, Numeral, Operator, Program, Statement,
    StatementType, Type as AstType,
};
use ziraffe_compiler::compiler::compile_program;
use ziraffe_compiler::error::CompileErrorType;
use ziraffe_compiler::instruction::Instruction;
use ziraffe_compiler::symbol_table::{Symbol, Type};

fn at(row: usize, column: usize) -> Location {
    Location { row, column }
}

fn expr(node: ExpressionType) -> Expression {
    Located { location: at(1, 1), node }
}

fn expr_at(loc: Location, node: ExpressionType) -> Expression {
    Located { location: loc, node }
}

fn stmt(node: StatementType) -> Statement {
    Located { location: at(1, 1), node }
}

fn ident(name: &str) -> Expression {
    expr(ExpressionType::Identifier { value: name.to_string() })
}

fn number(text: &str) -> Expression {
    expr(ExpressionType::Number { value: Numeral::from_text(text.to_string()).unwrap() })
}

fn numeral(text: &str) -> Numeral {
    Numeral::from_text(text.to_string()).unwrap()
}

fn sym(id: &str, num: u32, typ: Type) -> Symbol {
    Symbol { id: id.to_string(), num, typ }
}

/// The tree for:
/// `contract A { uint b; function f() { uint a = 0; for i in 0..10 { a = a + 1; } } }`
fn example_program() -> Program {
    let loop_body = expr(ExpressionType::CompoundExpression {
        statements: vec![stmt(StatementType::Expression {
            expression: Box::new(expr(ExpressionType::AssignExpression {
                left: Box::new(ident("a")),
                operator: Operator::Assign,
                right: Box::new(expr(ExpressionType::BinaryExpression {
                    left: Box::new(ident("a")),
                    operator: Operator::Add,
                    right: Box::new(number("1")),
                })),
            })),
        })],
        return_value: None,
    });
    let for_loop = expr(ExpressionType::ForEachExpression {
        iterator: Box::new(ident("i")),
        vector: Box::new(expr(ExpressionType::Range {
            start: numeral("0"),
            end: numeral("10"),
        })),
        for_expr: Box::new(loop_body),
    });
    let body = expr(ExpressionType::CompoundExpression {
        statements: vec![
            stmt(StatementType::InitializerStatement {
                variable_type: AstType::Uint,
                variable: Box::new(ident("a")),
                default: Some(Box::new(number("0"))),
            }),
            stmt(StatementType::Expression { expression: Box::new(for_loop) }),
        ],
        return_value: None,
    });
    let function_f = stmt(StatementType::FunctionStatement {
        function_name: Box::new(ident("f")),
        parameters: Box::new(expr(ExpressionType::Parameters { parameters: vec![] })),
        expr: Box::new(body),
        returns: None,
    });
    let member_b = stmt(StatementType::InitializerStatement {
        variable_type: AstType::Uint,
        variable: Box::new(ident("b")),
        default: None,
    });
    Program::GlobalStatements(vec![stmt(StatementType::ContractStatement {
        contract_name: Box::new(ident("A")),
        members: Box::new(stmt(StatementType::MemberStatement {
            statements: vec![member_b, function_f],
        })),
    })])
}

#[test]
fn test_compile_program() {
    let program = example_program();
    let contracts = compile_program(&program).unwrap();
    let contract = contracts.get(&"A".to_string()).unwrap();
    let _function = contract.functions.get(&"f".to_string()).unwrap();
}

#[test]
fn example_program_lowers_to_expected_instructions() {
    let contracts = compile_program(&example_program()).unwrap();
    assert_eq!(contracts.len(), 1);
    assert_eq!(contracts.key_at(0).as_str(), "A");
    let contract = contracts.get(&"A".to_string()).unwrap();

    assert_eq!(contract.member.len(), 1);
    assert_eq!(contract.member.key_at(0).as_str(), "b");
    assert_eq!(contract.member.get(&"b".to_string()), Some(&sym("b", 0, Type::Uint)));

    assert_eq!(contract.functions.len(), 1);
    let f = contract.functions.get(&"f".to_string()).unwrap();
    assert_eq!(f.parameters().len(), 0);
    assert_eq!(f.return_type(), Type::NoneType);

    let mut loop_block = ziraffe_compiler::instruction::Block::new();
    loop_block.add_instruction(Instruction::Add {
        dst: Box::new(sym("", 1, Type::Uint)),
        left: Box::new(sym("a", 0, Type::Uint)),
        right: Box::new(sym("1", 0, Type::Uint)),
    });
    loop_block.add_instruction(Instruction::Assign {
        dst: Box::new(sym("a", 0, Type::Uint)),
        src: Box::new(sym("", 1, Type::Uint)),
    });
    let expected = vec![
        Instruction::InitAssign {
            name: Box::new(sym("a", 0, Type::Uint)),
            src: Box::new(sym("0", 0, Type::Uint)),
        },
        Instruction::For {
            iter: Box::new(sym("i", 0, Type::Undefined)),
            start: numeral("0"),
            end: numeral("10"),
            block: Box::new(loop_block),
        },
    ];
    assert_eq!(f.body().instructions(), &expected);
}

#[test]
fn compiling_twice_gives_identical_output() {
    let first = compile_program(&example_program()).unwrap();
    let second = compile_program(&example_program()).unwrap();
    assert_eq!(first, second);
}

#[test]
fn binary_expression_same_types_emits_one_matching_instruction() {
    // function g() { 2 * 3; } inside contract C
    let body = expr(ExpressionType::CompoundExpression {
        statements: vec![stmt(StatementType::Expression {
            expression: Box::new(expr(ExpressionType::BinaryExpression {
                left: Box::new(number("2")),
                operator: Operator::Mul,
                right: Box::new(number("3")),
            })),
        })],
        return_value: None,
    });
    let program = Program::GlobalStatements(vec![stmt(StatementType::ContractStatement {
        contract_name: Box::new(ident("C")),
        members: Box::new(stmt(StatementType::MemberStatement {
            statements: vec![stmt(StatementType::FunctionStatement {
                function_name: Box::new(ident("g")),
                parameters: Box::new(expr(ExpressionType::Parameters { parameters: vec![] })),
                expr: Box::new(body),
                returns: None,
            })],
        })),
    })]);
    let contracts = compile_program(&program).unwrap();
    let g = contracts.get(&"C".to_string()).unwrap().functions.get(&"g".to_string()).unwrap();
    let expected = vec![Instruction::Mul {
        dst: Box::new(sym("", 1, Type::Uint)),
        left: Box::new(sym("2", 0, Type::Uint)),
        right: Box::new(sym("3", 0, Type::Uint)),
    }];
    assert_eq!(g.body().instructions(), &expected);
}

#[test]
fn binary_expression_mismatched_types_is_a_type_error_at_its_location() {
    let bad = expr_at(
        at(7, 9),
        ExpressionType::BinaryExpression {
            left: Box::new(expr(ExpressionType::Literal { value: "abc".to_string() })),
            operator: Operator::Add,
            right: Box::new(number("1")),
        },
    );
    let program = Program::GlobalStatements(vec![stmt(StatementType::Expression {
        expression: Box::new(bad),
    })]);
    let err = compile_program(&program).unwrap_err();
    assert_eq!(err.location, at(7, 9));
    assert_eq!(
        err.error,
        CompileErrorType::TypeError("Binary operation Type Error".to_string())
    );
}

#[test]
fn temporaries_are_numbered_strictly_increasing() {
    // function h() { 1 + 2; 3 + 4; }
    let body = expr(ExpressionType::CompoundExpression {
        statements: vec![
            stmt(StatementType::Expression {
                expression: Box::new(expr(ExpressionType::BinaryExpression {
                    left: Box::new(number("1")),
                    operator: Operator::Add,
                    right: Box::new(number("2")),
                })),
            }),
            stmt(StatementType::Expression {
                expression: Box::new(expr(ExpressionType::BinaryExpression {
                    left: Box::new(number("3")),
                    operator: Operator::Add,
                    right: Box::new(number("4")),
                })),
            }),
        ],
        return_value: None,
    });
    let program = Program::GlobalStatements(vec![stmt(StatementType::ContractStatement {
        contract_name: Box::new(ident("C")),
        members: Box::new(stmt(StatementType::MemberStatement {
            statements: vec![stmt(StatementType::FunctionStatement {
                function_name: Box::new(ident("h")),
                parameters: Box::new(expr(ExpressionType::Parameters { parameters: vec![] })),
                expr: Box::new(body),
                returns: None,
            })],
        })),
    })]);
    let contracts = compile_program(&program).unwrap();
    let h = contracts.get(&"C".to_string()).unwrap().functions.get(&"h".to_string()).unwrap();
    let instrs = h.body().instructions();
    let nums: Vec<u32> = instrs
        .iter()
        .map(|i| match i {
            Instruction::Add { dst, .. } => dst.num,
            _ => panic!("expected only Add instructions"),
        })
        .collect();
    assert_eq!(nums.len(), 2);
    assert!(nums[0] < nums[1]);
}

#[test]
fn contract_with_only_variable_declarations() {
    let program = Program::GlobalStatements(vec![stmt(StatementType::ContractStatement {
        contract_name: Box::new(ident("D")),
        members: Box::new(stmt(StatementType::MemberStatement {
            statements: vec![
                stmt(StatementType::InitializerStatement {
                    variable_type: AstType::Uint,
                    variable: Box::new(ident("a")),
                    default: None,
                }),
                stmt(StatementType::InitializerStatement {
                    variable_type: AstType::String,
                    variable: Box::new(ident("s")),
                    default: None,
                }),
                stmt(StatementType::InitializerStatement {
                    variable_type: AstType::Address,
                    variable: Box::new(ident("owner")),
                    default: None,
                }),
            ],
        })),
    })]);
    let contracts = compile_program(&program).unwrap();
    let d = contracts.get(&"D".to_string()).unwrap();
    assert_eq!(d.functions.len(), 0);
    assert_eq!(d.member.len(), 3);
    assert_eq!(d.member.key_at(0).as_str(), "a");
    assert_eq!(d.member.key_at(1).as_str(), "s");
    assert_eq!(d.member.key_at(2).as_str(), "owner");
    assert_eq!(d.member.val_at(0), &sym("a", 0, Type::Uint));
    assert_eq!(d.member.val_at(1), &sym("s", 0, Type::String));
    assert_eq!(d.member.val_at(2), &sym("owner", 0, Type::Address));
}

#[test]
fn undeclared_identifier_resolves_to_undefined_not_an_error() {
    // A bare reference to a never-declared name compiles without error.
    let program = Program::GlobalStatements(vec![stmt(StatementType::Expression {
        expression: Box::new(ident("missing")),
    })]);
    let contracts = compile_program(&program).unwrap();
    assert_eq!(contracts.len(), 0);
}

#[test]
fn undeclared_identifier_fails_later_at_first_type_checked_use() {
    // `missing + 1` has operand types Undefined and Uint: the deferred
    // resolution failure surfaces as a type error at the binary expression.
    let bad = expr_at(
        at(3, 5),
        ExpressionType::BinaryExpression {
            left: Box::new(ident("missing")),
            operator: Operator::Add,
            right: Box::new(number("1")),
        },
    );
    let program = Program::GlobalStatements(vec![stmt(StatementType::Expression {
        expression: Box::new(bad),
    })]);
    let err = compile_program(&program).unwrap_err();
    assert_eq!(err.location, at(3, 5));
    assert_eq!(
        err.error,
        CompileErrorType::TypeError("Binary operation Type Error".to_string())
    );
}

#[test]
fn foreach_over_a_non_range_is_a_syntax_error() {
    // The range error is attributed to the node standing where the range
    // was expected.
    let bad = expr_at(
        at(1, 1),
        ExpressionType::ForEachExpression {
            iterator: Box::new(ident("i")),
            vector: Box::new(expr_at(at(2, 2), ExpressionType::Identifier { value: "xs".to_string() })),
            for_expr: Box::new(expr(ExpressionType::CompoundExpression {
                statements: vec![],
                return_value: None,
            })),
        },
    );
    let program = Program::GlobalStatements(vec![stmt(StatementType::Expression {
        expression: Box::new(bad),
    })]);
    let err = compile_program(&program).unwrap_err();
    assert_eq!(err.location, at(2, 2));
    assert_eq!(
        err.error,
        CompileErrorType::SyntaxError("Range Compile Error".to_string())
    );
}

#[test]
fn function_body_that_is_not_compound_is_a_syntax_error() {
    let program = Program::GlobalStatements(vec![stmt(StatementType::FunctionStatement {
        function_name: Box::new(ident("f")),
        parameters: Box::new(expr(ExpressionType::Parameters { parameters: vec![] })),
        expr: Box::new(expr_at(at(4, 4), ExpressionType::Identifier { value: "x".to_string() })),
        returns: None,
    })]);
    let err = compile_program(&program).unwrap_err();
    assert_eq!(err.location, at(4, 4));
    assert_eq!(
        err.error,
        CompileErrorType::SyntaxError("Block Compile Error".to_string())
    );
}

#[test]
fn parameter_position_with_wrong_node_is_a_syntax_error() {
    let program = Program::GlobalStatements(vec![stmt(StatementType::FunctionStatement {
        function_name: Box::new(ident("f")),
        parameters: Box::new(expr_at(at(5, 6), ExpressionType::Identifier { value: "p".to_string() })),
        expr: Box::new(expr(ExpressionType::CompoundExpression {
            statements: vec![],
            return_value: None,
        })),
        returns: None,
    })]);
    let err = compile_program(&program).unwrap_err();
    assert_eq!(err.location, at(5, 6));
    assert_eq!(err.error, CompileErrorType::SyntaxError("Unreachable".to_string()));
}

#[test]
fn if_and_else_share_the_same_condition_symbol() {
    // function k() { if 1 < 2 { 7; } else { 8; } }
    let cond = expr(ExpressionType::BinaryExpression {
        left: Box::new(number("1")),
        operator: Operator::Lt,
        right: Box::new(number("2")),
    });
    let then_branch = expr(ExpressionType::CompoundExpression {
        statements: vec![stmt(StatementType::Expression { expression: Box::new(number("7")) })],
        return_value: None,
    });
    let else_branch = expr(ExpressionType::CompoundExpression {
        statements: vec![stmt(StatementType::Expression { expression: Box::new(number("8")) })],
        return_value: None,
    });
    let body = expr(ExpressionType::CompoundExpression {
        statements: vec![stmt(StatementType::Expression {
            expression: Box::new(expr(ExpressionType::IfExpression {
                condition: Box::new(cond),
                if_expr: Box::new(then_branch),
                else_expr: Some(Box::new(else_branch)),
            })),
        })],
        return_value: None,
    });
    let program = Program::GlobalStatements(vec![stmt(StatementType::ContractStatement {
        contract_name: Box::new(ident("C")),
        members: Box::new(stmt(StatementType::MemberStatement {
            statements: vec![stmt(StatementType::FunctionStatement {
                function_name: Box::new(ident("k")),
                parameters: Box::new(expr(ExpressionType::Parameters { parameters: vec![] })),
                expr: Box::new(body),
                returns: None,
            })],
        })),
    })]);
    let contracts = compile_program(&program).unwrap();
    let k = contracts.get(&"C".to_string()).unwrap().functions.get(&"k".to_string()).unwrap();
    let instrs = k.body().instructions();
    assert_eq!(instrs.len(), 3);
    match (&instrs[1], &instrs[2]) {
        (Instruction::If { cond: c1, .. }, Instruction::Else { cond: c2, .. }) => {
            assert_eq!(c1, c2);
            assert_eq!(**c1, sym("", 1, Type::Uint));
        },
        _ => panic!("expected an If followed by an Else"),
    }
}

#[test]
fn function_calls_lower_to_call_instructions() {
    // function m() { send(1, 2); }
    let call = expr(ExpressionType::FunctionCallExpression {
        function_name: Box::new(ident("send")),
        arguments: Box::new(expr(ExpressionType::Arguments {
            arguments: vec![number("1"), number("2")],
        })),
    });
    let body = expr(ExpressionType::CompoundExpression {
        statements: vec![stmt(StatementType::Expression { expression: Box::new(call) })],
        return_value: None,
    });
    let program = Program::GlobalStatements(vec![stmt(StatementType::ContractStatement {
        contract_name: Box::new(ident("C")),
        members: Box::new(stmt(StatementType::MemberStatement {
            statements: vec![stmt(StatementType::FunctionStatement {
                function_name: Box::new(ident("m")),
                parameters: Box::new(expr(ExpressionType::Parameters { parameters: vec![] })),
                expr: Box::new(body),
                returns: None,
            })],
        })),
    })]);
    let contracts = compile_program(&program).unwrap();
    let m = contracts.get(&"C".to_string()).unwrap().functions.get(&"m".to_string()).unwrap();
    let expected = vec![Instruction::Call {
        dst: Box::new(Symbol { id: "_".to_string(), num: 1, typ: Type::NoneType }),
        func: Box::new(sym("send", 0, Type::Undefined)),
        args: vec![sym("1", 0, Type::Uint), sym("2", 0, Type::Uint)],
    }];
    assert_eq!(m.body().instructions(), &expected);
}
