use script_to_lua::parsing::ast::{Expr, MatchPattern, ResultValue, Statement, Type};
use script_to_lua::parsing::grammar::PrimaryRule;
use script_to_lua::parsing::input::Input;
use script_to_lua::parsing::parse_error::ParseError;
use script_to_lua::parsing::statement::{
    parse_bool, parse_expr, parse_lambda, parse_primary_form, parse_statement,
};

#[test]
fn should_parse_expr_lambda() -> Result<(), ParseError> {
    let i = r#"|a, b, c| 0"#.char_indices().collect::<Vec<(usize, char)>>();
    let mut input = Input::new(&i);
    let u = parse_lambda(&mut input)?;
    assert!(matches!(u, Expr::ExprLambda { .. }));
    Ok(())
}

#[test]
fn should_parse_statement_lambda() -> Result<(), ParseError> {
    let i = r#"|a, b, c| { return 0; }"#.char_indices().collect::<Vec<(usize, char)>>();
    let mut input = Input::new(&i);
    let u = parse_lambda(&mut input)?;
    assert!(matches!(u, Expr::StatementLambda { .. }));
    Ok(())
}

#[test]
fn should_parse_statement_lambda_with_types() -> Result<(), ParseError> {
    let i = r#"|a : A, b : B, c| -> R { return 0; }"#.char_indices().collect::<Vec<(usize, char)>>();
    let mut input = Input::new(&i);
    let u = parse_lambda(&mut input)?;
    assert!(matches!(u, Expr::StatementLambda { .. }));
    Ok(())
}

#[test]
fn should_parse_expr_lambda_with_types() -> Result<(), ParseError> {
    let i = r#"|a, b : B, c : C| -> R<T> 0"#.char_indices().collect::<Vec<(usize, char)>>();
    let mut input = Input::new(&i);
    let u = parse_lambda(&mut input)?;
    assert!(matches!(u, Expr::ExprLambda { .. }));
    Ok(())
}

#[test]
fn should_parse_call() -> Result<(), ParseError> {
    let i = r#"x()"#.char_indices().collect::<Vec<(usize, char)>>();
    let mut input = Input::new(&i);
    let u = parse_expr(&mut input)?;
    assert!(matches!(u, Expr::Call { .. }));
    Ok(())
}

#[test]
fn should_parse_call_call() -> Result<(), ParseError> {
    let i = r#"x()()"#.char_indices().collect::<Vec<(usize, char)>>();
    let mut input = Input::new(&i);
    let u = parse_expr(&mut input)?;
    let call = match u {
        Expr::Call { func, .. } => *func,
        e => panic!("expected call but found {:?}", e),
    };

    assert!(matches!(call, Expr::Call { .. }));
    Ok(())
}

#[test]
fn should_parse_call_call_with_param() -> Result<(), ParseError> {
    let i = r#"x(a)(b)"#.char_indices().collect::<Vec<(usize, char)>>();
    let mut input = Input::new(&i);
    let u = parse_expr(&mut input)?;
    let (call, mut params) = match u {
        Expr::Call { func, params } => (*func, params),
        e => panic!("expected call but found {:?}", e),
    };

    let var = match params.pop().unwrap() {
        Expr::Variable { name, .. } => name.value,
        e => panic!("expected variable but found {:?}", e),
    };

    assert_eq!(var, "b");

    let (call, mut params) = match call {
        Expr::Call { func, params } => (*func, params),
        e => panic!("expected call but found {:?}", e),
    };

    let var = match params.pop().unwrap() {
        Expr::Variable { name, .. } => name.value,
        e => panic!("expected variable but found {:?}", e),
    };

    assert_eq!(var, "a");

    assert!(matches!(call, Expr::Variable { .. }));

    Ok(())
}

#[test]
fn should_parse_complex_post_expr() -> Result<(), ParseError> {
    let i = r#"(|z| z.b(5))(a)(b)?-blarg(a, b.c)()"#.char_indices().collect::<Vec<(usize, char)>>();
    let mut input = Input::new(&i);
    let _ = parse_expr(&mut input)?;
    Ok(())
}

#[test]
fn should_parse_namespaced_variable() -> Result<(), ParseError> {
    let i = r#"alpha::beta::name"#.char_indices().collect::<Vec<(usize, char)>>();
    let mut input = Input::new(&i);
    let u = parse_expr(&mut input)?;
    let (ns, n) = match u {
        Expr::Variable { namespace, name } => (namespace, name),
        e => panic!("Expected variable but found {:?}", e),
    };
    assert_eq!(n.value, "name");
    assert_eq!(ns.len(), 2);
    assert_eq!(ns[0].value, "alpha");
    assert_eq!(ns[1].value, "beta");
    Ok(())
}

#[test]
fn should_parse_ok_result_cons() -> Result<(), ParseError> {
    let i = r#"Ok(blah::ikky)"#.char_indices().collect::<Vec<(usize, char)>>();
    let mut input = Input::new(&i);
    let u = parse_expr(&mut input)?;
    match u {
        Expr::ResultCons(ResultValue::Okay(_)) => {},
        e => panic!("Expected ResultCons(Okay) but found {:?}", e),
    }
    Ok(())
}

#[test]
fn should_parse_err_result_cons() -> Result<(), ParseError> {
    let i = r#"Err(blah::ikky)"#.char_indices().collect::<Vec<(usize, char)>>();
    let mut input = Input::new(&i);
    let u = parse_expr(&mut input)?;
    match u {
        Expr::ResultCons(ResultValue::Error(_)) => {},
        e => panic!("Expected ResultCons(Error) but found {:?}", e),
    }
    Ok(())
}

#[test]
fn should_parse_list_cons() -> Result<(), ParseError> {
    let i = r#"[1,2,3,4]"#.char_indices().collect::<Vec<(usize, char)>>();
    let mut input = Input::new(&i);
    let u = parse_expr(&mut input)?;
    match u {
        Expr::ListCons(_) => {},
        e => panic!("Expected list cons but found {:?}", e),
    }
    Ok(())
}

#[test]
fn should_parse_nested_list_cons() -> Result<(), ParseError> {
    let i = r#"[ [1], [1, 2], [], [4, 5] ]"#.char_indices().collect::<Vec<(usize, char)>>();
    let mut input = Input::new(&i);
    let u = parse_expr(&mut input)?;
    match u {
        Expr::ListCons(_) => {},
        e => panic!("Expected list cons but found {:?}", e),
    }
    Ok(())
}

#[test]
fn should_parse_anon_struct() -> Result<(), ParseError> {
    let i = r#"new { blah : 5 }"#.char_indices().collect::<Vec<(usize, char)>>();
    let mut input = Input::new(&i);
    let u = parse_expr(&mut input)?;
    match u {
        Expr::StructCons { name: None, .. } => {},
        e => panic!("Expected anon struct cons but found {:?}", e),
    }
    Ok(())
}

#[test]
fn should_parse_anon_empty_struct() -> Result<(), ParseError> {
    let i = r#"new { }"#.char_indices().collect::<Vec<(usize, char)>>();
    let mut input = Input::new(&i);
    let u = parse_expr(&mut input)?;
    match u {
        Expr::StructCons { name: None, .. } => {},
        e => panic!("Expected anon struct cons but found {:?}", e),
    }
    Ok(())
}

#[test]
fn should_parse_named_struct() -> Result<(), ParseError> {
    let i = r#"new Blah { a: 1, b: [], c: new {} }"#.char_indices().collect::<Vec<(usize, char)>>();
    let mut input = Input::new(&i);
    let u = parse_expr(&mut input)?;
    match u {
        Expr::StructCons { name: Some(_), .. } => {},
        e => panic!("Expected struct cons but found {:?}", e),
    }
    Ok(())
}

fn statement_of(text: &str) -> Result<Statement, ParseError> {
    let i = text.char_indices().collect::<Vec<(usize, char)>>();
    let mut input = Input::new(&i);
    let s = parse_statement(&mut input)?;
    input.expect_end()?;
    Ok(s)
}

fn expr_of(text: &str) -> Result<Expr, ParseError> {
    let i = text.char_indices().collect::<Vec<(usize, char)>>();
    let mut input = Input::new(&i);
    let e = parse_expr(&mut input)?;
    input.expect_end()?;
    Ok(e)
}

#[test]
fn postfix_chain_is_left_associative() -> Result<(), ParseError> {
    match expr_of("x(a)(b)")? {
        Expr::Call { func, params } => {
            assert_eq!(params.len(), 1);
            assert!(matches!(&params[0], Expr::Variable { name, .. } if name.value == "b"));
            match *func {
                Expr::Call { func, params } => {
                    assert_eq!(params.len(), 1);
                    assert!(matches!(&params[0], Expr::Variable { name, .. } if name.value == "a"));
                    assert!(matches!(*func, Expr::Variable { name, .. } if name.value == "x"));
                },
                e => panic!("expected call but found {:?}", e),
            }
        },
        e => panic!("expected call but found {:?}", e),
    }
    Ok(())
}

#[test]
fn trailing_try_and_dash_bind_to_all_before() -> Result<(), ParseError> {
    match expr_of("a.b?")? {
        Expr::Try(inner) => assert!(matches!(*inner, Expr::Dot { .. })),
        e => panic!("expected try but found {:?}", e),
    }
    match expr_of("a(b)-c")? {
        Expr::Dash { object, func } => {
            assert_eq!(func.value, "c");
            assert!(matches!(*object, Expr::Call { .. }));
        },
        e => panic!("expected dash but found {:?}", e),
    }
    Ok(())
}

#[test]
fn literals() -> Result<(), ParseError> {
    match expr_of("  12.5 ")? {
        Expr::Number(n) => {
            assert_eq!(n.value, "12.5");
            assert_eq!(n.start, 2);
            assert_eq!(n.end, 6);
        },
        e => panic!("expected number but found {:?}", e),
    }
    match expr_of(r#""a \" quote""#)? {
        Expr::PString(s) => {
            assert_eq!(s.value, r#"a \" quote"#);
            assert_eq!(s.start, 1);
            assert_eq!(s.end, 11);
        },
        e => panic!("expected string but found {:?}", e),
    }
    assert!(matches!(expr_of("true")?, Expr::Bool(true)));
    assert!(matches!(expr_of("false")?, Expr::Bool(false)));
    assert!(matches!(expr_of("truth")?, Expr::Variable { .. }));
    Ok(())
}

#[test]
fn number_followed_by_dot_access() -> Result<(), ParseError> {
    match expr_of("5.b")? {
        Expr::Dot { object, slot } => {
            assert_eq!(slot.value, "b");
            assert!(matches!(*object, Expr::Number(n) if n.value == "5"));
        },
        e => panic!("expected dot but found {:?}", e),
    }
    Ok(())
}

#[test]
fn expression_that_cannot_start_reports_the_last_form() {
    match expr_of(" ;") {
        Err(ParseError::ErrorAt(at, message)) => {
            assert_eq!(at, 1);
            assert_eq!(message, "Expected (");
        },
        other => panic!("expected an error but found {:?}", other),
    }
}

#[test]
fn boolean_parser_gives_back_other_symbols() {
    let i = "foo".char_indices().collect::<Vec<(usize, char)>>();
    let mut input = Input::new(&i);
    match parse_bool(&mut input) {
        Err(ParseError::ErrorAt(at, message)) => {
            assert_eq!(at, 0);
            assert_eq!(message, "Expected boolean");
        },
        other => panic!("expected an error but found {:?}", other),
    }
    assert_eq!(input.offset(), 0);

    let i = " true false".char_indices().collect::<Vec<(usize, char)>>();
    let mut input = Input::new(&i);
    assert!(matches!(parse_bool(&mut input), Ok(Expr::Bool(true))));
    assert_eq!(input.offset(), 5);
    assert!(matches!(parse_bool(&mut input), Ok(Expr::Bool(false))));
    assert!(matches!(parse_bool(&mut input), Err(ParseError::EndOfFile(_))));
    assert_eq!(input.offset(), 11);
}

#[test]
fn boolean_rule_rejects_other_symbols_at_their_start() {
    let i = "  maybe".char_indices().collect::<Vec<(usize, char)>>();
    let mut input = Input::new(&i);
    match parse_primary_form(&mut input, &PrimaryRule::Bool) {
        Err(ParseError::ErrorAt(at, message)) => {
            assert_eq!(at, 2);
            assert_eq!(message, "Expected boolean");
        },
        other => panic!("expected an error but found {:?}", other),
    }
    assert_eq!(input.offset(), 0);
}

#[test]
fn paren_expr_is_the_inner_expr() -> Result<(), ParseError> {
    assert!(matches!(expr_of("(x)")?, Expr::Variable { .. }));
    Ok(())
}

#[test]
fn comments_and_whitespace_are_skipped() -> Result<(), ParseError> {
    let s = statement_of("// leading\n  return // why\n  x ; // done")?;
    assert!(matches!(s, Statement::Return(Some(Expr::Variable { .. }))));
    Ok(())
}

#[test]
fn let_with_and_without_type() -> Result<(), ParseError> {
    match statement_of("let x : T<U> = 5;")? {
        Statement::Let { name, value_type, expr } => {
            assert_eq!(name.value, "x");
            assert!(matches!(value_type, Type::Index(..)));
            assert!(matches!(expr, Expr::Number(_)));
        },
        s => panic!("expected let but found {:?}", s),
    }
    match statement_of("let x = y;")? {
        Statement::Let { value_type, .. } => assert!(matches!(value_type, Type::Infer)),
        s => panic!("expected let but found {:?}", s),
    }
    Ok(())
}

#[test]
fn set_return_yield() -> Result<(), ParseError> {
    assert!(matches!(statement_of("set a.b = c;")?, Statement::Assign { .. }));
    assert!(matches!(statement_of("return;")?, Statement::Return(None)));
    assert!(matches!(statement_of("return 1;")?, Statement::Return(Some(_))));
    assert!(matches!(statement_of("yield;")?, Statement::Yield(None)));
    assert!(matches!(statement_of("yield x;")?, Statement::Yield(Some(_))));
    Ok(())
}

#[test]
fn blocks() -> Result<(), ParseError> {
    match statement_of("if x { return 1; return 2; }")? {
        Statement::If { statements, .. } => assert_eq!(statements.len(), 2),
        s => panic!("expected if but found {:?}", s),
    }
    match statement_of("elseif x { }")? {
        Statement::ElseIf { statements, .. } => assert_eq!(statements.len(), 0),
        s => panic!("expected elseif but found {:?}", s),
    }
    match statement_of("else { f(); }")? {
        Statement::Else(statements) => assert_eq!(statements.len(), 1),
        s => panic!("expected else but found {:?}", s),
    }
    match statement_of("while x { f(); }")? {
        Statement::While { statements, .. } => assert_eq!(statements.len(), 1),
        s => panic!("expected while but found {:?}", s),
    }
    match statement_of("foreach v in xs { f(v); }")? {
        Statement::Foreach { var, statements, .. } => {
            assert_eq!(var.value, "v");
            assert_eq!(statements.len(), 1);
        },
        s => panic!("expected foreach but found {:?}", s),
    }
    Ok(())
}

#[test]
fn break_and_continue_are_statements_of_their_own() -> Result<(), ParseError> {
    assert!(matches!(statement_of("break;")?, Statement::Break));
    assert!(matches!(statement_of("  continue ;")?, Statement::Continue));
    Ok(())
}

#[test]
fn keywords_come_before_the_expression_statement() -> Result<(), ParseError> {
    assert!(matches!(statement_of("while x { break; }")?, Statement::While { .. }));
    assert!(matches!(statement_of("foreach v in xs { continue; }")?, Statement::Foreach { .. }));
    match statement_of("if c { break; } ")? {
        Statement::If { statements, .. } => {
            assert_eq!(statements.len(), 1);
            assert!(matches!(statements[0], Statement::Break));
        },
        s => panic!("expected if but found {:?}", s),
    }
    Ok(())
}

#[test]
fn a_name_that_starts_like_a_keyword_is_an_expression() -> Result<(), ParseError> {
    match statement_of("breakfast;")? {
        Statement::Expr(Expr::Variable { name, .. }) => assert_eq!(name.value, "breakfast"),
        s => panic!("expected an expression statement but found {:?}", s),
    }
    match statement_of("continued(1);")? {
        Statement::Expr(Expr::Call { .. }) => {},
        s => panic!("expected an expression statement but found {:?}", s),
    }
    Ok(())
}

#[test]
fn statement_needs_its_semicolon() {
    let i = "return 1".char_indices().collect::<Vec<(usize, char)>>();
    let mut input = Input::new(&i);
    assert!(parse_statement(&mut input).is_err());
    assert_eq!(input.offset(), 0);
}

#[test]
fn failing_statement_reports_the_last_alternative() {
    let i = "  ?".char_indices().collect::<Vec<(usize, char)>>();
    let mut input = Input::new(&i);
    match parse_statement(&mut input) {
        Err(ParseError::ErrorAt(at, message)) => {
            assert_eq!(at, 2);
            assert_eq!(message, "Expected (");
        },
        other => panic!("expected an error but found {:?}", other),
    }
    assert_eq!(input.offset(), 0);
}

#[test]
fn match_statement() -> Result<(), ParseError> {
    let text = "match x { _ => return 0; Some(a, _) if a => { f(a); g(); } Nil => y; }";
    match statement_of(text)? {
        Statement::Match { cases, .. } => {
            assert_eq!(cases.len(), 3);
            assert!(matches!(cases[0].pattern, MatchPattern::Wildcard));
            assert!(cases[0].test.is_none());
            assert_eq!(cases[0].statements.len(), 1);
            match &cases[1].pattern {
                MatchPattern::Cons(name, fields) => {
                    assert_eq!(name.value, "Some");
                    assert_eq!(fields.len(), 2);
                    assert!(matches!(fields[1], MatchPattern::Wildcard));
                },
                p => panic!("expected a constructor but found {:?}", p),
            }
            assert!(cases[1].test.is_some());
            assert_eq!(cases[1].statements.len(), 2);
            match &cases[2].pattern {
                MatchPattern::Cons(name, fields) => {
                    assert_eq!(name.value, "Nil");
                    assert_eq!(fields.len(), 0);
                },
                p => panic!("expected a constructor but found {:?}", p),
            }
        },
        s => panic!("expected match but found {:?}", s),
    }
    Ok(())
}

#[test]
fn match_case_body_is_never_empty() {
    assert!(statement_of("match x { _ => { } }").is_err());
}
