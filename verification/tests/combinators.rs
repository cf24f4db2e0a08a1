use script_to_lua::parsing::ast::PSym;
use script_to_lua::parsing::input::Input;
use script_to_lua::parsing::parse_error::ParseError;

fn chars(text: &str) -> Vec<(usize, char)> {
    text.char_indices().collect::<Vec<(usize, char)>>()
}

fn values(items: &Vec<PSym>) -> Vec<String> {
    items.iter().map(|s| s.value.clone()).collect()
}

#[test]
fn expect_skips_whitespace_and_comments() {
    let i = chars("  // note\n\t let x");
    let mut input = Input::new(&i);
    let sym = input.expect("let").unwrap();
    assert_eq!(sym.value, "let");
    assert_eq!(sym.start, 12);
    assert_eq!(sym.end, 15);
    assert_eq!(input.offset(), 15);
}

#[test]
fn failing_expect_does_not_move() {
    let i = chars("   let");
    let mut input = Input::new(&i);
    match input.expect("set") {
        Err(ParseError::ErrorAt(at, message)) => {
            assert_eq!(at, 3);
            assert_eq!(message, "Expected set");
        },
        other => panic!("expected an error but found {:?}", other),
    }
    assert_eq!(input.offset(), 0);
}

#[test]
fn expect_at_the_end_is_end_of_file() {
    let i = chars("  ");
    let mut input = Input::new(&i);
    match input.expect(";") {
        Err(ParseError::EndOfFile(message)) => assert_eq!(message, "Expected ;"),
        other => panic!("expected end of file but found {:?}", other),
    }
    assert_eq!(input.offset(), 0);
}

#[test]
fn expect_matches_a_prefix_of_the_text() {
    let i = chars("letter");
    let mut input = Input::new(&i);
    assert!(input.expect("let").is_ok());
    assert_eq!(input.offset(), 3);
}

#[test]
fn symbols() {
    let i = chars(" _a1b2 next");
    let mut input = Input::new(&i);
    let sym = input.parse_symbol().unwrap();
    assert_eq!(sym.value, "_a1b2");
    assert_eq!((sym.start, sym.end), (1, 6));
    assert_eq!(input.parse_symbol().unwrap().value, "next");
    assert!(matches!(input.parse_symbol(), Err(ParseError::EndOfFile(_))));

    let i = chars("1abc");
    let mut input = Input::new(&i);
    match input.parse_symbol() {
        Err(ParseError::ErrorAt(at, message)) => {
            assert_eq!(at, 0);
            assert_eq!(message, "Expected symbol");
        },
        other => panic!("expected an error but found {:?}", other),
    }
    assert_eq!(input.offset(), 0);
}

#[test]
fn numbers() {
    let i = chars("12 3.25 4. x");
    let mut input = Input::new(&i);
    assert_eq!(input.parse_number().unwrap().value, "12");
    assert_eq!(input.parse_number().unwrap().value, "3.25");
    assert_eq!(input.parse_number().unwrap().value, "4");
    assert_eq!(input.offset(), 9);
    assert!(input.parse_number().is_err());
    assert_eq!(input.offset(), 9);
}

#[test]
fn strings() {
    let i = chars(r#" "one" "t\"wo" "open"#);
    let mut input = Input::new(&i);
    let one = input.parse_string().unwrap();
    assert_eq!(one.value, "one");
    assert_eq!((one.start, one.end), (2, 5));
    assert_eq!(input.parse_string().unwrap().value, r#"t\"wo"#);
    let before = input.offset();
    match input.parse_string() {
        Err(ParseError::EndOfFile(message)) => assert_eq!(message, "Expected closing quote"),
        other => panic!("expected end of file but found {:?}", other),
    }
    assert_eq!(input.offset(), before);
}

#[test]
fn restore_goes_back() {
    let i = chars("a b c");
    let mut input = Input::new(&i);
    input.parse_symbol().unwrap();
    let rp = input.create_restore();
    input.parse_symbol().unwrap();
    input.parse_symbol().unwrap();
    assert_eq!(input.offset(), 5);
    input.restore(rp);
    assert_eq!(input.offset(), 1);
    assert_eq!(input.parse_symbol().unwrap().value, "b");
}

#[test]
fn expect_end() {
    let i = chars("a  // rest\n ");
    let mut input = Input::new(&i);
    match input.expect_end() {
        Err(ParseError::ErrorAt(at, message)) => {
            assert_eq!(at, 0);
            assert_eq!(message, "Expected end of input");
        },
        other => panic!("expected an error but found {:?}", other),
    }
    input.parse_symbol().unwrap();
    assert!(input.expect_end().is_ok());
    assert_eq!(input.offset(), 12);
}

#[test]
fn maybe_restores_on_failure() {
    let i = chars("a 1");
    let mut input = Input::new(&i);
    assert!(input.maybe(|i: &mut Input| i.parse_number()).is_none());
    assert_eq!(input.offset(), 0);
    assert_eq!(input.maybe(|i: &mut Input| i.parse_symbol()).unwrap().value, "a");
    assert_eq!(input.offset(), 1);
}

#[test]
fn maybe_restores_what_a_failing_parser_consumed() {
    let i = chars("a b");
    let mut input = Input::new(&i);
    let r = input.maybe(|i: &mut Input| {
        i.parse_symbol()?;
        i.parse_number()
    });
    assert!(r.is_none());
    assert_eq!(input.offset(), 0);
}

#[test]
fn zero_or_more_never_fails() {
    let i = chars("1 2 3 x");
    let mut input = Input::new(&i);
    let items = input.zero_or_more(|i: &mut Input| i.parse_number()).unwrap();
    assert_eq!(values(&items), vec!["1", "2", "3"]);
    assert_eq!(input.offset(), 5);

    let none = input.zero_or_more(|i: &mut Input| i.parse_number()).unwrap();
    assert_eq!(none.len(), 0);
    assert_eq!(input.offset(), 5);
}

#[test]
fn zero_or_more_stops_at_a_parser_that_consumes_nothing() {
    let i = chars("abc");
    let mut input = Input::new(&i);
    let items = input.zero_or_more(|i: &mut Input| i.expect("")).unwrap();
    assert_eq!(items.len(), 0);
    assert_eq!(input.offset(), 0);
}

#[test]
fn list_of_none_one_and_more() {
    let i = chars(")");
    let mut input = Input::new(&i);
    let items = input.list(|i: &mut Input| i.parse_symbol()).unwrap();
    assert_eq!(items.len(), 0);
    assert_eq!(input.offset(), 0);

    let i = chars("a)");
    let mut input = Input::new(&i);
    let items = input.list(|i: &mut Input| i.parse_symbol()).unwrap();
    assert_eq!(values(&items), vec!["a"]);
    assert_eq!(input.offset(), 1);

    let i = chars("a , b,c )");
    let mut input = Input::new(&i);
    let items = input.list(|i: &mut Input| i.parse_symbol()).unwrap();
    assert_eq!(values(&items), vec!["a", "b", "c"]);
    assert_eq!(input.offset(), 7);
}

#[test]
fn list_leaves_a_trailing_comma() {
    let i = chars("a, b, )");
    let mut input = Input::new(&i);
    let items = input.list(|i: &mut Input| i.parse_symbol()).unwrap();
    assert_eq!(values(&items), vec!["a", "b"]);
    assert_eq!(input.offset(), 4);
}

#[test]
fn choice_takes_the_first_that_matches() {
    let i = chars("  word 12");
    let mut input = Input::new(&i);
    let alternatives = [0u8, 1u8];
    let either = |i: &mut Input, which: &u8| {
        if *which == 0 {
            i.parse_number()
        } else {
            i.parse_symbol()
        }
    };
    assert_eq!(input.choice(&alternatives, either).unwrap().value, "word");
    assert_eq!(input.choice(&alternatives, either).unwrap().value, "12");
}

#[test]
fn failing_choice_reports_the_last_alternative() {
    let i = chars("  ;");
    let mut input = Input::new(&i);
    let alternatives = [0u8, 1u8];
    let either = |i: &mut Input, which: &u8| {
        if *which == 0 {
            i.parse_number()
        } else {
            i.parse_symbol()
        }
    };
    match input.choice(&alternatives, either) {
        Err(ParseError::ErrorAt(at, message)) => {
            assert_eq!(at, 2);
            assert_eq!(message, "Expected symbol");
        },
        other => panic!("expected an error but found {:?}", other),
    }
    assert_eq!(input.offset(), 0);
}

#[test]
fn choice_among_nothing_fails_in_place() {
    let i = chars(" x");
    let mut input = Input::new(&i);
    let alternatives: [u8; 0] = [];
    match input.choice(&alternatives, |i: &mut Input, _which: &u8| i.parse_symbol()) {
        Err(ParseError::ErrorAt(at, message)) => {
            assert_eq!(at, 0);
            assert_eq!(message, "Expected an alternative");
        },
        other => panic!("expected an error but found {:?}", other),
    }
    assert_eq!(input.offset(), 0);
}

#[test]
fn choice_restores_between_attempts() {
    let i = chars("a b");
    let mut input = Input::new(&i);
    let alternatives = [0u8, 1u8];
    let r = input.choice(&alternatives, |i: &mut Input, which: &u8| {
        if *which == 0 {
            i.parse_symbol()?;
            i.parse_number()
        } else {
            i.parse_symbol()
        }
    });
    assert_eq!(r.unwrap().value, "a");
    assert_eq!(input.offset(), 1);
}
