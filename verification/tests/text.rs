use script_to_lua::text::{chars_of_str, join_strings};

#[test]
fn join_puts_the_separator_between() {
    let names = vec!["a".to_string(), "b".to_string(), "c".to_string()];
    assert_eq!(join_strings(&names, ", "), "a, b, c");
    assert_eq!(join_strings(&names[..1].to_vec(), ", "), "a");
    assert_eq!(join_strings(&vec![], ", "), "");
}

#[test]
fn characters_of_a_string() {
    assert_eq!(chars_of_str("aé\n"), vec!['a', 'é', '\n']);
    assert_eq!(chars_of_str(""), Vec::<char>::new());
}
