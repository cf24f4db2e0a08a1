use script_to_lua::gen::lua_ast::{
    check_expr, check_statement, check_statements, if_cascade, Expr, If, InlineTableAssign,
    Statement,
};
use script_to_lua::gen::lua_gen::{gen_code, gen_expr, gen_if, gen_statement};

fn number(text: &str) -> Expr {
    Expr::Number(text.to_string())
}

fn var(text: &str) -> Expr {
    Expr::Var(text.to_string())
}

fn two_breaks() -> Vec<Statement> {
    vec![Statement::Break, Statement::Break]
}

#[test]
fn should_handle_if() {
    let if_statements = vec![If { test: number("0"), statements: two_breaks() }];

    let ast = vec![Statement::If { if_statements, else_statement: vec![] }];

    let output = gen_code(ast);

    assert_eq!(output, "if 0 then\n    break\n    break\nend\n");
}

#[test]
fn should_handle_if_with_elseif() {
    let if_statements = vec![
        If { test: number("0"), statements: two_breaks() },
        If { test: number("1"), statements: two_breaks() },
    ];

    let ast = vec![Statement::If { if_statements, else_statement: vec![] }];

    let output = gen_code(ast);

    assert_eq!(
        output,
        "if 0 then\n    break\n    break\nelseif 1 then\n    break\n    break\nend\n"
    );
}

#[test]
fn should_handle_if_with_elseif_with_elseif() {
    let if_statements = vec![
        If { test: number("0"), statements: two_breaks() },
        If { test: number("1"), statements: two_breaks() },
        If { test: number("2"), statements: two_breaks() },
    ];

    let ast = vec![Statement::If { if_statements, else_statement: vec![] }];

    let output = gen_code(ast);

    assert_eq!(
        output,
        r#"if 0 then
    break
    break
elseif 1 then
    break
    break
elseif 2 then
    break
    break
end
"#
    );
}

#[test]
fn should_handle_if_with_elseif_with_elseif_with_else() {
    let if_statements = vec![
        If { test: number("0"), statements: two_breaks() },
        If { test: number("1"), statements: two_breaks() },
        If { test: number("2"), statements: two_breaks() },
    ];

    let ast = vec![Statement::If { if_statements, else_statement: two_breaks() }];

    let output = gen_code(ast);

    assert_eq!(
        output,
        r#"if 0 then
    break
    break
elseif 1 then
    break
    break
elseif 2 then
    break
    break
else
    break
    break
end
"#
    );
}

#[test]
fn should_handle_if_with_else() {
    let if_statements = vec![If { test: number("0"), statements: two_breaks() }];

    let ast = vec![Statement::If { if_statements, else_statement: two_breaks() }];

    let output = gen_code(ast);

    assert_eq!(output, "if 0 then\n    break\n    break\nelse\n    break\n    break\nend\n");
}

#[test]
fn should_handle_if_with_nested_if() {
    let if_statements = vec![If {
        test: number("0"),
        statements: vec![Statement::If {
            if_statements: vec![If { test: number("1"), statements: two_breaks() }],
            else_statement: vec![],
        }],
    }];

    let ast = vec![Statement::If { if_statements, else_statement: vec![] }];

    let output = gen_code(ast);

    assert_eq!(
        output,
        "if 0 then\n    if 1 then\n        break\n        break\n    end\nend\n"
    );
}

#[test]
fn empty_program_renders_as_nothing() {
    assert_eq!(gen_code(vec![]), "");
}

#[test]
fn each_top_level_statement_ends_with_one_line_break() {
    let ast = vec![Statement::Break, Statement::LocalVarDeclare("x".to_string())];
    assert_eq!(gen_code(ast), "break\nlocal x\n");
}

#[test]
fn counted_loop_without_increment_steps_by_one() {
    let ast = vec![Statement::ForI {
        var: "i".to_string(),
        start: number("1"),
        end: number("10"),
        increment: None,
        statements: vec![Statement::Break],
    }];
    assert_eq!(gen_code(ast), "for i = 1, 10, 1 do\n    break\nend\n");
}

#[test]
fn counted_loop_with_increment_uses_it() {
    let ast = vec![Statement::ForI {
        var: "i".to_string(),
        start: number("10"),
        end: number("1"),
        increment: Some(var("step")),
        statements: vec![],
    }];
    assert_eq!(gen_code(ast), "for i = 10, 1, step do\nend\n");
}

#[test]
fn while_loop_closes_at_its_own_depth() {
    let inner = Statement::While { test: var("b"), statements: vec![Statement::Break] };
    let outer = Statement::While { test: var("a"), statements: vec![inner] };
    assert_eq!(
        gen_code(vec![outer]),
        "while a do\n    while b do\n        break\n    end\nend\n"
    );
}

#[test]
fn repeat_puts_body_before_until() {
    let ast = vec![Statement::Repeat { test: var("done"), statements: two_breaks() }];
    assert_eq!(gen_code(ast), "repeat\n    break\n    break\nuntil done\n");
}

#[test]
fn generic_for_loop() {
    let ast = vec![Statement::For {
        vars: vec!["k".to_string()],
        iterator: var("items"),
        statements: vec![Statement::Break],
    }];
    assert_eq!(gen_code(ast), "for k in items do\n    break\nend\n");
}

#[test]
fn generic_for_loop_separates_its_variables_with_commas() {
    let ast = vec![Statement::For {
        vars: vec!["k".to_string(), "v".to_string()],
        iterator: var("it"),
        statements: vec![Statement::Break],
    }];
    assert_eq!(gen_code(ast), "for k, v in it do\n    break\nend\n");

    let nested = Statement::For {
        vars: vec!["a".to_string(), "b".to_string(), "c".to_string()],
        iterator: var("xs"),
        statements: vec![],
    };
    assert_eq!(gen_statement(&nested, "    "), "    for a, b, c in xs do\n    end");
}

#[test]
fn assignment_ends_with_one_line_break_in_a_program() {
    let ast = vec![Statement::AssignVar {
        vars: vec!["x".to_string(), "y".to_string()],
        exprs: vec![number("1"), number("2")],
    }];
    assert_eq!(gen_code(ast), "x, y = 1, 2\n");

    let ast = vec![
        Statement::AssignVar { vars: vec!["x".to_string()], exprs: vec![number("1")] },
        Statement::While {
            test: var("x"),
            statements: vec![Statement::AssignVar {
                vars: vec!["x".to_string()],
                exprs: vec![Expr::Nil],
            }],
        },
    ];
    assert_eq!(gen_code(ast), "x = 1\nwhile x do\n    x = nil\nend\n");
}

#[test]
fn return_separates_values_with_commas() {
    let ast = vec![Statement::Return(vec![number("1"), var("x"), Expr::Nil])];
    assert_eq!(gen_code(ast), "return 1, x, nil\n");
}

#[test]
fn return_without_values() {
    assert_eq!(gen_code(vec![Statement::Return(vec![])]), "return \n");
}

#[test]
fn assignments() {
    let assign = Statement::AssignVar {
        vars: vec!["a".to_string(), "b".to_string()],
        exprs: vec![number("1"), number("2")],
    };
    assert_eq!(gen_statement(&assign, ""), "a, b = 1, 2");

    let list = Statement::AssignListAccess {
        target: var("xs"),
        index: number("3"),
        new_value: Expr::Bool(true),
    };
    assert_eq!(gen_statement(&list, "    "), "    xs[ 3 ] = true");

    let table = Statement::AssignTableAccess {
        target: var("t"),
        slot: "field".to_string(),
        new_value: Expr::Bool(false),
    };
    assert_eq!(gen_statement(&table, ""), "t.field = false");
}

#[test]
fn three_call_forms() {
    let general = Expr::FunCall { fun: Box::new(var("f")), params: vec![var("a"), var("b")] };
    assert_eq!(gen_expr(&general, ""), "f( a, b )");

    let system = Expr::CallSystemFun { fun: "print".to_string(), params: vec![var("a")] };
    assert_eq!(gen_expr(&system, ""), "print( a )");

    let binary = Expr::CallBinFun {
        fun: "add".to_string(),
        a: Box::new(number("1")),
        b: Box::new(number("2")),
    };
    assert_eq!(gen_expr(&binary, ""), "add( 1, 2 )");

    let unary = Expr::CallUniFun { fun: "neg".to_string(), a: Box::new(number("1")) };
    assert_eq!(gen_expr(&unary, ""), "neg( 1 )");
}

#[test]
fn call_statements() {
    let general = Statement::FunCall { fun: var("f"), params: vec![] };
    assert_eq!(gen_statement(&general, "    "), "    f(  )");

    let system = Statement::CallSystemFun {
        fun: "print".to_string(),
        params: vec![Expr::String("\"hi\"".to_string())],
    };
    assert_eq!(gen_statement(&system, ""), "print( \"hi\" )");
}

#[test]
fn table_constructor_and_access() {
    let table = Expr::TableCons(vec![
        InlineTableAssign { key: "a".to_string(), value: number("1") },
        InlineTableAssign { key: "b".to_string(), value: number("2") },
    ]);
    assert_eq!(gen_expr(&table, ""), "{  [\"a\"] = 1 ;  [\"b\"] = 2  }");

    let access = Expr::TableAccess { expr: Box::new(var("t")), slot: "a".to_string() };
    assert_eq!(gen_expr(&access, ""), "t.a");
}

#[test]
fn list_constructor_access_and_paren() {
    let list = Expr::ListCons(vec![number("1"), number("2")]);
    assert_eq!(gen_expr(&list, ""), "{ 1, 2 }");

    let access = Expr::ListAccess { expr: Box::new(var("xs")), index: Box::new(number("1")) };
    assert_eq!(gen_expr(&access, ""), "xs[ 1 ]");

    assert_eq!(gen_expr(&Expr::Paren(Box::new(var("x"))), ""), "(x)");
}

#[test]
fn lambda_body_is_one_level_deeper() {
    let lambda = Expr::Lambda {
        params: vec!["a".to_string(), "b".to_string()],
        statements: vec![Statement::Return(vec![var("a")])],
    };
    assert_eq!(gen_expr(&lambda, "    "), "function( a, b )\n        return a\n    end");
}

#[test]
fn branch_without_keyword() {
    let branch = If { test: var("c"), statements: two_breaks() };
    assert_eq!(gen_if(&branch, ""), "c then\n    break\n    break");
}

#[test]
fn well_formedness_is_about_branches() {
    let empty_if = Statement::If { if_statements: vec![], else_statement: vec![] };
    assert!(!check_statement(&empty_if));
    let nested = Statement::While {
        test: Expr::Lambda {
            params: vec![],
            statements: vec![Statement::If { if_statements: vec![], else_statement: two_breaks() }],
        },
        statements: vec![],
    };
    assert!(!check_statements(&vec![Statement::Break, nested]));
    let fine = Statement::If {
        if_statements: vec![If { test: Expr::Nil, statements: vec![] }],
        else_statement: vec![],
    };
    assert!(check_statements(&vec![fine]));
    assert!(check_expr(&Expr::ListCons(vec![Expr::Nil, Expr::Bool(true)])));
}

#[test]
fn if_with_empty_body() {
    let ast = vec![Statement::If {
        if_statements: vec![If { test: var("c"), statements: vec![] }],
        else_statement: vec![],
    }];
    assert_eq!(gen_code(ast), "if c then\n\nend\n");
}

fn count(text: &str, word: &str) -> usize {
    text.matches(word).count()
}

#[test]
fn cascade_has_one_end_whatever_its_branches() {
    for branches in 1..5 {
        for with_else in [false, true] {
            let if_statements = (0..branches)
                .map(|n| If { test: number(&n.to_string()), statements: two_breaks() })
                .collect::<Vec<If>>();
            let else_statement = if with_else { two_breaks() } else { vec![] };
            let text = gen_code(vec![Statement::If { if_statements, else_statement }]);
            assert_eq!(count(&text, "end"), 1);
            assert_eq!(count(&text, "elseif "), branches - 1);
            assert_eq!(count(&text, "else\n"), if with_else { 1 } else { 0 });
            assert!(text.ends_with("end\n"));
        }
    }
}

#[test]
fn built_cascade_has_its_branches_in_order() {
    let s = if_cascade(
        If { test: number("0"), statements: two_breaks() },
        vec![If { test: number("1"), statements: two_breaks() }],
        vec![],
    );
    assert!(check_statement(&s));
    assert_eq!(
        gen_code(vec![s]),
        "if 0 then\n    break\n    break\nelseif 1 then\n    break\n    break\nend\n"
    );
}

#[test]
fn cascade_line_by_line() {
    for depth in 0..3 {
        for later in 0..4 {
            for with_else in [false, true] {
                let if_statements = (0..later + 1)
                    .map(|n| If { test: number(&n.to_string()), statements: two_breaks() })
                    .collect::<Vec<If>>();
                let else_statement = if with_else { two_breaks() } else { vec![] };
                let cascade = Statement::If { if_statements, else_statement };
                let pad = " ".repeat(4 * depth);
                let text = gen_statement(&cascade, &pad);
                let lines = text.split('\n').collect::<Vec<&str>>();
                let closer = format!("{}end", pad);
                let opener = format!("{}if ", pad);
                let later_opener = format!("{}elseif ", pad);
                assert_eq!(lines.iter().filter(|l| l.trim() == "end").count(), 1);
                assert_eq!(*lines.last().unwrap(), closer);
                assert_eq!(lines.iter().filter(|l| l.starts_with(&opener)).count(), 1);
                assert!(lines[0].starts_with(&opener));
                assert_eq!(lines.iter().filter(|l| l.starts_with(&later_opener)).count(), later);
                let bodies = 2 * (later + 1) + if with_else { 3 } else { 0 };
                assert_eq!(lines.len(), 1 + later + bodies + 1);
            }
        }
    }
}
