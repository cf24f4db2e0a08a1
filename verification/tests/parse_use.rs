use script_to_lua::parsing::ast::{Import, PSym};
use script_to_lua::parsing::input::Input;
use script_to_lua::parsing::parse_error::ParseError;

fn sym_proj(v: &PSym) -> String {
    match v {
        PSym { value, .. } => value.to_string(),
    }
}

#[test]
fn misc_should_parse_empty_use() -> Result<(), ParseError> {
    let i = "use symb::{};".char_indices().collect::<Vec<(usize, char)>>();
    let mut input = Input::new(&i);
    let u = input.parse_use()?;
    assert_eq!(u.imports.len(), 0);
    assert_eq!(u.namespace.len(), 1);
    assert_eq!(sym_proj(&u.namespace[0]), "symb");
    Ok(())
}

#[test]
fn misc_should_parse_use_with_everything() -> Result<(), ParseError> {
    let i = "use symb::{*};".char_indices().collect::<Vec<(usize, char)>>();
    let mut input = Input::new(&i);
    let u = input.parse_use()?;
    assert_eq!(u.imports.len(), 1);
    assert!(matches!(u.imports[0], Import::Everything));
    assert_eq!(u.namespace.len(), 1);
    assert_eq!(sym_proj(&u.namespace[0]), "symb");
    Ok(())
}

#[test]
fn misc_should_parse_use_with_everythings() -> Result<(), ParseError> {
    let i = "use symb::{*, *};".char_indices().collect::<Vec<(usize, char)>>();
    let mut input = Input::new(&i);
    let u = input.parse_use()?;
    assert_eq!(u.imports.len(), 2);
    assert!(matches!(u.imports[0], Import::Everything));
    assert!(matches!(u.imports[1], Import::Everything));
    assert_eq!(u.namespace.len(), 1);
    assert_eq!(sym_proj(&u.namespace[0]), "symb");
    Ok(())
}

#[test]
fn misc_should_parse_use_with_long_namespace() -> Result<(), ParseError> {
    let i = "use symb::other::some::{*, *};".char_indices().collect::<Vec<(usize, char)>>();
    let mut input = Input::new(&i);
    let u = input.parse_use()?;
    assert_eq!(u.imports.len(), 2);
    assert!(matches!(u.imports[0], Import::Everything));
    assert!(matches!(u.imports[1], Import::Everything));
    assert_eq!(u.namespace.len(), 3);
    assert_eq!(sym_proj(&u.namespace[0]), "symb");
    assert_eq!(sym_proj(&u.namespace[1]), "other");
    assert_eq!(sym_proj(&u.namespace[2]), "some");
    Ok(())
}

#[test]
fn misc_should_parse_use_with_everything_and_item() -> Result<(), ParseError> {
    let i = "use symb::other::some::{*, item};".char_indices().collect::<Vec<(usize, char)>>();
    let mut input = Input::new(&i);
    let u = input.parse_use()?;
    assert_eq!(u.imports.len(), 2);
    assert!(matches!(u.imports[0], Import::Everything));
    assert!(matches!(u.imports[1], Import::Item(_)));
    match &u.imports[1] {
        Import::Item(item) if sym_proj(&item) == "item" => (),
        _ => assert!(false),
    }

    assert_eq!(u.namespace.len(), 3);
    assert_eq!(sym_proj(&u.namespace[0]), "symb");
    assert_eq!(sym_proj(&u.namespace[1]), "other");
    assert_eq!(sym_proj(&u.namespace[2]), "some");
    Ok(())
}

#[test]
fn misc_should_parse_use_with_items() -> Result<(), ParseError> {
    let i = "use symb::other::some::{item1, item2};".char_indices().collect::<Vec<(usize, char)>>();
    let mut input = Input::new(&i);
    let u = input.parse_use()?;
    assert_eq!(u.imports.len(), 2);
    assert!(matches!(u.imports[0], Import::Item(_)));
    assert!(matches!(u.imports[1], Import::Item(_)));
    match &u.imports[0] {
        Import::Item(item) if sym_proj(&item) == "item1" => (),
        _ => assert!(false),
    }
    match &u.imports[1] {
        Import::Item(item) if sym_proj(&item) == "item2" => (),
        _ => assert!(false),
    }

    assert_eq!(u.namespace.len(), 3);
    assert_eq!(sym_proj(&u.namespace[0]), "symb");
    assert_eq!(sym_proj(&u.namespace[1]), "other");
    assert_eq!(sym_proj(&u.namespace[2]), "some");
    Ok(())
}

#[test]
fn use_with_two_segments_star_and_item() -> Result<(), ParseError> {
    let i = "use a::b::{*, item};".char_indices().collect::<Vec<(usize, char)>>();
    let mut input = Input::new(&i);
    let u = input.parse_use()?;
    assert_eq!(u.namespace.len(), 2);
    assert_eq!(sym_proj(&u.namespace[0]), "a");
    assert_eq!(sym_proj(&u.namespace[1]), "b");
    assert_eq!(u.imports.len(), 2);
    assert!(matches!(u.imports[0], Import::Everything));
    match &u.imports[1] {
        Import::Item(item) => {
            assert_eq!(item.value, "item");
            assert_eq!(item.start, 14);
            assert_eq!(item.end, 18);
        },
        _ => panic!("expected an item"),
    }
    Ok(())
}

#[test]
fn use_without_braces_fails_and_restores() {
    let i = "use a::b;".char_indices().collect::<Vec<(usize, char)>>();
    let mut input = Input::new(&i);
    match input.parse_use() {
        Err(ParseError::ErrorAt(at, message)) => {
            assert_eq!(at, 8);
            assert_eq!(message, "Expected ::");
        },
        other => panic!("expected an error but found {:?}", other),
    }
    assert_eq!(input.offset(), 0);
}

#[test]
fn use_cut_short_is_end_of_file() {
    let i = "use a::".char_indices().collect::<Vec<(usize, char)>>();
    let mut input = Input::new(&i);
    match input.parse_use() {
        Err(ParseError::EndOfFile(message)) => assert_eq!(message, "Expected symbol"),
        other => panic!("expected end of file but found {:?}", other),
    }
    assert_eq!(input.offset(), 0);
}
