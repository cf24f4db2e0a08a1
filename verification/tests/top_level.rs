use script_to_lua::parsing::ast::{Import, PSym, TopLevel, Type};
use script_to_lua::parsing::input::Input;
use script_to_lua::parsing::parse::{parse, parse_proc};
use script_to_lua::parsing::parse_error::ParseError;
use script_to_lua::parsing::top_level::{
    parse_enum_def, parse_fun_def, parse_struct_def, parse_top_level,
};

fn sym_proj(v: &PSym) -> String {
    match v {
        PSym { value, .. } => value.to_string(),
    }
}

#[test]
fn top_level_should_parse_empty_use() -> Result<(), ParseError> {
    let i = "use symb::{};".char_indices().collect::<Vec<(usize, char)>>();
    let mut input = Input::new(&i);
    let u = input.parse_use()?;
    assert_eq!(u.imports.len(), 0);
    assert_eq!(u.namespace.len(), 1);
    assert_eq!(sym_proj(&u.namespace[0]), "symb");
    Ok(())
}

#[test]
fn top_level_should_parse_use_with_everything() -> Result<(), ParseError> {
    let i = "use symb::{*};".char_indices().collect::<Vec<(usize, char)>>();
    let mut input = Input::new(&i);
    let u = input.parse_use()?;
    assert_eq!(u.imports.len(), 1);
    assert!(matches!(u.imports[0], Import::Everything));
    assert_eq!(u.namespace.len(), 1);
    assert_eq!(sym_proj(&u.namespace[0]), "symb");
    Ok(())
}

#[test]
fn top_level_should_parse_use_with_everythings() -> Result<(), ParseError> {
    let i = "use symb::{*, *};".char_indices().collect::<Vec<(usize, char)>>();
    let mut input = Input::new(&i);
    let u = input.parse_use()?;
    assert_eq!(u.imports.len(), 2);
    assert!(matches!(u.imports[0], Import::Everything));
    assert!(matches!(u.imports[1], Import::Everything));
    assert_eq!(u.namespace.len(), 1);
    assert_eq!(sym_proj(&u.namespace[0]), "symb");
    Ok(())
}

#[test]
fn top_level_should_parse_use_with_long_namespace() -> Result<(), ParseError> {
    let i = "use symb::other::some::{*, *};".char_indices().collect::<Vec<(usize, char)>>();
    let mut input = Input::new(&i);
    let u = input.parse_use()?;
    assert_eq!(u.imports.len(), 2);
    assert!(matches!(u.imports[0], Import::Everything));
    assert!(matches!(u.imports[1], Import::Everything));
    assert_eq!(u.namespace.len(), 3);
    assert_eq!(sym_proj(&u.namespace[0]), "symb");
    assert_eq!(sym_proj(&u.namespace[1]), "other");
    assert_eq!(sym_proj(&u.namespace[2]), "some");
    Ok(())
}

#[test]
fn top_level_should_parse_use_with_everything_and_item() -> Result<(), ParseError> {
    let i = "use symb::other::some::{*, item};".char_indices().collect::<Vec<(usize, char)>>();
    let mut input = Input::new(&i);
    let u = input.parse_use()?;
    assert_eq!(u.imports.len(), 2);
    assert!(matches!(u.imports[0], Import::Everything));
    assert!(matches!(u.imports[1], Import::Item(_)));
    match &u.imports[1] {
        Import::Item(item) if sym_proj(&item) == "item" => (),
        _ => assert!(false),
    }

    assert_eq!(u.namespace.len(), 3);
    assert_eq!(sym_proj(&u.namespace[0]), "symb");
    assert_eq!(sym_proj(&u.namespace[1]), "other");
    assert_eq!(sym_proj(&u.namespace[2]), "some");
    Ok(())
}

#[test]
fn top_level_should_parse_use_with_items() -> Result<(), ParseError> {
    let i = "use symb::other::some::{item1, item2};".char_indices().collect::<Vec<(usize, char)>>();
    let mut input = Input::new(&i);
    let u = input.parse_use()?;
    assert_eq!(u.imports.len(), 2);
    assert!(matches!(u.imports[0], Import::Item(_)));
    assert!(matches!(u.imports[1], Import::Item(_)));
    match &u.imports[0] {
        Import::Item(item) if sym_proj(&item) == "item1" => (),
        _ => assert!(false),
    }
    match &u.imports[1] {
        Import::Item(item) if sym_proj(&item) == "item2" => (),
        _ => assert!(false),
    }

    assert_eq!(u.namespace.len(), 3);
    assert_eq!(sym_proj(&u.namespace[0]), "symb");
    assert_eq!(sym_proj(&u.namespace[1]), "other");
    assert_eq!(sym_proj(&u.namespace[2]), "some");
    Ok(())
}

#[test]
fn should_parse_fun_def() -> Result<(), ParseError> {
    let i = r#"
fun blah() {
    return 0;
}"#
    .char_indices()
    .collect::<Vec<(usize, char)>>();
    let mut input = Input::new(&i);
    let u = parse_fun_def(&mut input)?;

    assert_eq!(u.name.value, "blah");
    assert_eq!(u.type_params.len(), 0);
    assert_eq!(u.params.len(), 0);
    assert_eq!(u.definition.len(), 1);
    assert!(matches!(u.return_type, Type::Unit));

    Ok(())
}

#[test]
fn should_parse_fun_def_extras() -> Result<(), ParseError> {
    let i = r#"
fun blah<a,b,c>( a : b, c : d ) -> number {
    return 0;
}"#
    .char_indices()
    .collect::<Vec<(usize, char)>>();
    let mut input = Input::new(&i);
    let u = parse_fun_def(&mut input)?;

    assert_eq!(u.name.value, "blah");
    assert_eq!(u.type_params.len(), 3);
    assert_eq!(u.params.len(), 2);
    assert_eq!(u.definition.len(), 1);

    let return_name = match u.return_type {
        Type::Simple(n) => n,
        e => panic!("expected Type::Simple but found {:?}", e),
    };

    assert_eq!(return_name.value, "number");

    Ok(())
}

#[test]
fn should_parse_enum() -> Result<(), ParseError> {
    let i = r#"
enum blah {
    One,
    Two, 
    Three
}"#
    .char_indices()
    .collect::<Vec<(usize, char)>>();
    let mut input = Input::new(&i);
    let u = parse_enum_def(&mut input)?;

    assert_eq!(u.name.value, "blah");
    assert_eq!(u.items.len(), 3);
    assert_eq!(u.items[0].value, "One");
    assert_eq!(u.items[1].value, "Two");
    assert_eq!(u.items[2].value, "Three");

    Ok(())
}

#[test]
fn should_parse_struct() -> Result<(), ParseError> {
    let i = r#"
struct blah {
    a : b,
    c : d
}"#
    .char_indices()
    .collect::<Vec<(usize, char)>>();
    let mut input = Input::new(&i);
    let u = parse_struct_def(&mut input)?;

    assert_eq!(u.name.value, "blah");
    assert_eq!(u.type_params.len(), 0);
    assert_eq!(u.items.len(), 2);

    Ok(())
}

#[test]
fn should_parse_struct_with_type_params() -> Result<(), ParseError> {
    let i = r#"
struct blah<a,b,c> {
    a : b,
    c : d
}"#
    .char_indices()
    .collect::<Vec<(usize, char)>>();
    let mut input = Input::new(&i);
    let u = parse_struct_def(&mut input)?;

    assert_eq!(u.name.value, "blah");
    assert_eq!(u.items.len(), 2);
    assert_eq!(u.type_params.len(), 3);
    assert_eq!(u.type_params[0].value, "a");
    assert_eq!(u.type_params[1].value, "b");
    assert_eq!(u.type_params[2].value, "c");

    Ok(())
}

#[test]
fn should_parse_program() -> Result<(), ParseError> {
    let input = r#"
use import::{*};
use import::other::{*};
use import::other::{*};
use import::{First, Second, Third};

pub fun fun_name<Type, Type>( first : First, second : Second ) -> path::Type<path::Type> {
    
    return t;
}

pub enum Type { 
    Case1,
    Case2
}

pub struct Name<Type, Type> {
    first : First<Type>,
    second : fun(A, B, C) -> Res
}
"#;

    let module = parse(input)?;

    assert_eq!(module.uses.len(), 4);
    assert_eq!(module.fun_defs.len(), 1);
    assert_eq!(module.fun_exports.len(), 1);
    assert_eq!(module.enum_defs.len(), 1);
    assert_eq!(module.enum_exports.len(), 1);
    assert_eq!(module.struct_defs.len(), 1);
    assert_eq!(module.struct_exports.len(), 1);

    Ok(())
}

#[test]
fn fun_def_with_type_params_params_and_return_type() -> Result<(), ParseError> {
    let i = "fun blah<a,b,c>(a: b, c: d) -> number { return 0; }"
        .char_indices()
        .collect::<Vec<(usize, char)>>();
    let mut input = Input::new(&i);
    let u = parse_fun_def(&mut input)?;
    assert_eq!(u.type_params.len(), 3);
    assert_eq!(u.params.len(), 2);
    assert_eq!(u.params[0].name.value, "a");
    assert!(matches!(&u.params[0].param_type, Type::Simple(t) if t.value == "b"));
    assert_eq!(u.params[1].name.value, "c");
    assert!(matches!(&u.params[1].param_type, Type::Simple(t) if t.value == "d"));
    assert!(matches!(&u.return_type, Type::Simple(t) if t.value == "number"));
    Ok(())
}

#[test]
fn exports_hold_the_public_names_in_order() -> Result<(), ParseError> {
    let module = parse_proc(
        "fun a() { } pub fun b() { } pub struct S { } struct T { } enum E { } pub enum F { X } pub fun c() { }",
    )?;
    let names = |defs: &Vec<script_to_lua::parsing::ast::FunDef>| {
        defs.iter().map(|d| d.name.value.clone()).collect::<Vec<String>>()
    };
    assert_eq!(names(&module.fun_defs), vec!["a", "b", "c"]);
    assert_eq!(module.fun_exports, vec!["b", "c"]);
    assert_eq!(module.struct_defs.len(), 2);
    assert_eq!(module.struct_exports, vec!["S"]);
    assert_eq!(module.enum_defs.len(), 2);
    assert_eq!(module.enum_exports, vec!["F"]);
    assert_eq!(module.uses.len(), 0);
    Ok(())
}

#[test]
fn empty_text_is_an_empty_module() -> Result<(), ParseError> {
    let module = parse_proc("  // nothing here\n")?;
    assert_eq!(module.fun_defs.len(), 0);
    assert_eq!(module.struct_defs.len(), 0);
    assert_eq!(module.enum_defs.len(), 0);
    assert_eq!(module.uses.len(), 0);
    Ok(())
}

#[test]
fn trailing_text_is_an_error() {
    match parse_proc("fun a() { } oops") {
        Err(ParseError::ErrorAt(at, message)) => {
            assert_eq!(at, 12);
            assert_eq!(message, "Expected end of input");
        },
        other => panic!("expected an error but found {:?}", other),
    }
}

#[test]
fn top_level_item_with_pub() -> Result<(), ParseError> {
    let i = "pub enum E { A }".char_indices().collect::<Vec<(usize, char)>>();
    let mut input = Input::new(&i);
    match parse_top_level(&mut input)? {
        TopLevel::EnumDef { def, public } => {
            assert!(public);
            assert_eq!(def.name.value, "E");
        },
        t => panic!("expected an enum but found {:?}", t),
    }
    Ok(())
}

#[test]
fn failing_top_level_item_restores_past_pub() {
    let i = "pub nothing".char_indices().collect::<Vec<(usize, char)>>();
    let mut input = Input::new(&i);
    match parse_top_level(&mut input) {
        Err(ParseError::ErrorAt(at, message)) => {
            assert_eq!(at, 4);
            assert_eq!(message, "Expected enum");
        },
        other => panic!("expected an error but found {:?}", other),
    }
    assert_eq!(input.offset(), 0);
}
