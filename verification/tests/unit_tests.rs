use ziraffe_compiler::ast::{ExpressionType, Location, Numeral, Operator, Type as AstType};
use ziraffe_compiler::instruction::Instruction;
use ziraffe_compiler::symbol_table::{Context, Symbol, Type};
use ziraffe_compiler::token::Tok;

#[test]
fn numeral_accepts_canonical_decimal_text() {
    assert_eq!(Numeral::from_text("0".to_string()).unwrap().text().as_str(), "0");
    assert_eq!(Numeral::from_text("10".to_string()).unwrap().text().as_str(), "10");
    assert_eq!(
        Numeral::from_text("123456789012345678901234567890".to_string()).unwrap().text().as_str(),
        "123456789012345678901234567890"
    );
}

#[test]
fn numeral_rejects_non_canonical_text() {
    assert!(Numeral::from_text("".to_string()).is_none());
    assert!(Numeral::from_text("007".to_string()).is_none());
    assert!(Numeral::from_text("01".to_string()).is_none());
    assert!(Numeral::from_text("1a".to_string()).is_none());
    assert!(Numeral::from_text("-1".to_string()).is_none());
    assert!(Numeral::from_text("1 0".to_string()).is_none());
}

#[test]
fn get_type_maps_every_source_annotation() {
    assert_eq!(Type::get_type(&AstType::URL), Type::URL);
    assert_eq!(Type::get_type(&AstType::JSON), Type::JSON);
    assert_eq!(Type::get_type(&AstType::Uint), Type::Uint);
    assert_eq!(Type::get_type(&AstType::Bool), Type::Bool);
    assert_eq!(Type::get_type(&AstType::String), Type::String);
    assert_eq!(Type::get_type(&AstType::Address), Type::Address);
}

#[test]
fn literal_symbol_is_string_typed_with_its_text() {
    let s = Symbol::literal_symbol("abc".to_string());
    assert_eq!(s, Symbol { id: "abc".to_string(), num: 0, typ: Type::String });
}

#[test]
fn temp_symbols_use_the_placeholder_and_fresh_numbers() {
    let mut ctx = Context::new();
    let t1 = Symbol::temp_symbol(&mut ctx);
    let t2 = Symbol::temp_symbol(&mut ctx);
    assert_eq!(t1, Symbol { id: "_".to_string(), num: 1, typ: Type::NoneType });
    assert_eq!(t2, Symbol { id: "_".to_string(), num: 2, typ: Type::NoneType });
    assert!(t1.num < t2.num);
}

#[test]
fn result_symbol_requires_equal_operand_types() {
    let loc = Location { row: 2, column: 3 };
    let mut ctx = Context::new();
    let a = Symbol { id: "a".to_string(), num: 0, typ: Type::Uint };
    let b = Symbol { id: "b".to_string(), num: 0, typ: Type::Uint };
    let dst = Symbol::result_symbol(&mut ctx, a.clone(), b, loc).unwrap();
    assert_eq!(dst, Symbol { id: "".to_string(), num: 1, typ: Type::Uint });

    let c = Symbol { id: "c".to_string(), num: 0, typ: Type::Bool };
    let err = Symbol::result_symbol(&mut ctx, a, c, loc).unwrap_err();
    assert_eq!(err.location, loc);
}

#[test]
fn scope_lookup_is_innermost_first_and_misses_become_undefined() {
    let mut ctx = Context::new();
    ctx.add_block();
    ctx.add_symbol("x", Symbol { id: "x".to_string(), num: 0, typ: Type::Uint });
    ctx.add_block();
    ctx.add_symbol("x", Symbol { id: "x".to_string(), num: 0, typ: Type::Bool });
    // The inner declaration shadows the outer one.
    assert_eq!(ctx.get_symbol("x").typ, Type::Bool);
    // A name in no scope resolves to an Undefined symbol carrying the name.
    let miss = ctx.get_symbol("y");
    assert_eq!(miss, Symbol { id: "y".to_string(), num: 0, typ: Type::Undefined });
    // After closing the inner scope the outer declaration is visible again.
    let _inner = ctx.pop_block();
    assert_eq!(ctx.get_symbol("x").typ, Type::Uint);
}

#[test]
fn bin_op_mapping_covers_every_operator_but_assignment() {
    let loc = Location { row: 1, column: 1 };
    let d = Symbol { id: "".to_string(), num: 1, typ: Type::Uint };
    let a = Symbol { id: "a".to_string(), num: 0, typ: Type::Uint };
    let b = Symbol { id: "b".to_string(), num: 0, typ: Type::Uint };
    let lt = Instruction::get_instruction_from_bin_op(Operator::Lt, d.clone(), a.clone(), b.clone(), loc)
        .unwrap();
    assert_eq!(
        lt,
        Instruction::Lt { dst: Box::new(d.clone()), left: Box::new(a.clone()), right: Box::new(b.clone()) }
    );
    let err =
        Instruction::get_instruction_from_bin_op(Operator::Assign, d, a, b, loc).unwrap_err();
    assert_eq!(err.location, loc);
}

#[test]
fn identifier_name_reads_only_identifiers() {
    let id = ExpressionType::Identifier { value: "k".to_string() };
    assert_eq!(id.identifier_name(), Some("k".to_string()));
    let lit = ExpressionType::Literal { value: "k".to_string() };
    assert_eq!(lit.identifier_name(), None);
}

#[test]
fn tokens_compare_by_shape_and_payload() {
    assert_eq!(
        Tok::Num { number: Numeral::from_text("7".to_string()).unwrap() },
        Tok::Num { number: Numeral::from_text("7".to_string()).unwrap() }
    );
    assert_ne!(Tok::Plus, Tok::Minus);
    assert_eq!(Tok::Identifier { name: "a".to_string() }, Tok::Identifier { name: "a".to_string() });
}
