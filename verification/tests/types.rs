use script_to_lua::parsing::ast::Type;
use script_to_lua::parsing::input::Input;
use script_to_lua::parsing::parse_error::ParseError;
use script_to_lua::parsing::types::{collapse_tuple, parse_type};

fn type_of(text: &str) -> Result<Type, ParseError> {
    let i = text.char_indices().collect::<Vec<(usize, char)>>();
    let mut input = Input::new(&i);
    let t = parse_type(&mut input)?;
    input.expect_end()?;
    Ok(t)
}

#[test]
fn empty_parentheses_are_unit() -> Result<(), ParseError> {
    assert!(matches!(type_of("()")?, Type::Unit));
    assert!(matches!(type_of("( )")?, Type::Unit));
    Ok(())
}

#[test]
fn one_type_in_parentheses_is_that_type() -> Result<(), ParseError> {
    match type_of("(T)")? {
        Type::Simple(name) => assert_eq!(name.value, "T"),
        t => panic!("expected a simple type but found {:?}", t),
    }
    match type_of("((a, b))")? {
        Type::Tuple(items) => assert_eq!(items.len(), 2),
        t => panic!("expected a tuple but found {:?}", t),
    }
    Ok(())
}

#[test]
fn two_types_in_parentheses_are_a_tuple() -> Result<(), ParseError> {
    match type_of("(A,B)")? {
        Type::Tuple(items) => {
            assert_eq!(items.len(), 2);
            assert!(matches!(&items[0], Type::Simple(n) if n.value == "A"));
            assert!(matches!(&items[1], Type::Simple(n) if n.value == "B"));
        },
        t => panic!("expected a tuple but found {:?}", t),
    }
    Ok(())
}

#[test]
fn collapse_by_count() {
    assert!(matches!(collapse_tuple(vec![]), Type::Unit));
    assert!(matches!(collapse_tuple(vec![Type::Infer]), Type::Infer));
    assert!(matches!(collapse_tuple(vec![Type::Infer, Type::Unit]), Type::Tuple(v) if v.len() == 2));
}

#[test]
fn arrows_nest_to_the_right() -> Result<(), ParseError> {
    match type_of("fun(a) -> fun(b) -> c")? {
        Type::Fun { input, output } => {
            assert_eq!(input.len(), 1);
            assert!(matches!(&input[0], Type::Simple(n) if n.value == "a"));
            match *output {
                Type::Fun { input, output } => {
                    assert_eq!(input.len(), 1);
                    assert!(matches!(&input[0], Type::Simple(n) if n.value == "b"));
                    assert!(matches!(*output, Type::Simple(n) if n.value == "c"));
                },
                t => panic!("expected a function type but found {:?}", t),
            }
        },
        t => panic!("expected a function type but found {:?}", t),
    }
    Ok(())
}

#[test]
fn indexed_and_namespaced_types() -> Result<(), ParseError> {
    match type_of("Map<K, List<V>>")? {
        Type::Index(name, args) => {
            assert_eq!(name.value, "Map");
            assert_eq!(args.len(), 2);
            assert!(matches!(&args[1], Type::Index(n, a) if n.value == "List" && a.len() == 1));
        },
        t => panic!("expected an indexed type but found {:?}", t),
    }
    match type_of("a::b::T<X>")? {
        Type::Namespace(path, inner) => {
            assert_eq!(path.len(), 2);
            assert_eq!(path[0].value, "a");
            assert_eq!(path[1].value, "b");
            assert!(matches!(*inner, Type::Index(n, a) if n.value == "T" && a.len() == 1));
        },
        t => panic!("expected a namespaced type but found {:?}", t),
    }
    match type_of("ns::T")? {
        Type::Namespace(path, inner) => {
            assert_eq!(path.len(), 1);
            assert!(matches!(*inner, Type::Simple(n) if n.value == "T"));
        },
        t => panic!("expected a namespaced type but found {:?}", t),
    }
    Ok(())
}

#[test]
fn a_name_that_starts_like_fun_is_a_name() -> Result<(), ParseError> {
    assert!(matches!(type_of("function")?, Type::Simple(n) if n.value == "function"));
    Ok(())
}

#[test]
fn a_form_that_fails_late_gives_way_to_the_next() -> Result<(), ParseError> {
    let i = "  fun(a) -> ".char_indices().collect::<Vec<(usize, char)>>();
    let mut input = Input::new(&i);
    let t = parse_type(&mut input)?;
    assert!(matches!(t, Type::Simple(n) if n.value == "fun"));
    assert_eq!(input.offset(), 5);
    Ok(())
}

#[test]
fn failing_type_restores_the_cursor() {
    let i = "  (a, ".char_indices().collect::<Vec<(usize, char)>>();
    let mut input = Input::new(&i);
    match parse_type(&mut input) {
        Err(ParseError::ErrorAt(at, message)) => {
            assert_eq!(at, 2);
            assert_eq!(message, "Expected symbol");
        },
        other => panic!("expected an error but found {:?}", other),
    }
    assert_eq!(input.offset(), 0);
}
