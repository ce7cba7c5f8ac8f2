use matrix_commander::messages::{
    classify_message, collect_messages, default_stdin_message, formatted_message, trim_newline,
    MessageInput,
};

fn text_of(m: MessageInput) -> Option<String> {
    match m {
        MessageInput::Text(t) => Some(t),
        _ => None,
    }
}

#[test]
fn message_arguments_are_classified() {
    assert!(matches!(classify_message(""), MessageInput::Skip));
    assert!(matches!(classify_message("--"), MessageInput::Skip));
    assert!(matches!(classify_message("-"), MessageInput::Stdin));
    assert!(matches!(classify_message("_"), MessageInput::StdinStream));
    assert_eq!(text_of(classify_message("\\-")), Some("-".to_string()));
    assert_eq!(text_of(classify_message("\\_")), Some("_".to_string()));
    assert_eq!(text_of(classify_message("\\-\\-")), Some("--".to_string()));
    assert_eq!(text_of(classify_message("\\-\\-\\-")), Some("---".to_string()));
    assert_eq!(text_of(classify_message("Hello")), Some("Hello".to_string()));
    assert_eq!(text_of(classify_message("---")), Some("---".to_string()));
}

#[test]
fn trim_newline_removes_one_line_ending() {
    let mut a = "line\r\n".to_string();
    assert_eq!(trim_newline(&mut a), "line");
    let mut b = "line\n\n".to_string();
    trim_newline(&mut b);
    assert_eq!(b, "line\n");
    let mut c = "line\r".to_string();
    trim_newline(&mut c);
    assert_eq!(c, "line\r");
    let mut d = String::new();
    trim_newline(&mut d);
    assert_eq!(d, "");
}

#[test]
fn message_arguments_give_their_texts() {
    let args = ["hello", "", "--", "-", "_", "\\-", "\\-\\-"];
    let texts: Vec<String> = args
        .iter()
        .map(|a| formatted_message(classify_message(a), "from stdin\r\n".to_string()))
        .collect();
    assert_eq!(texts, vec!["hello", "", "", "from stdin", "", "-", "--"]);
    assert_eq!(collect_messages(texts), vec!["hello", "from stdin", "-", "--"]);
}

#[test]
fn nothing_is_sent_when_every_argument_is_skipped() {
    let texts: Vec<String> = ["", "--", "_"]
        .iter()
        .map(|a| formatted_message(classify_message(a), String::new()))
        .collect();
    assert!(collect_messages(texts).is_empty());
    assert!(collect_messages(Vec::new()).is_empty());
}

#[test]
fn piped_input_without_messages_becomes_a_dash() {
    let mut m: Vec<String> = Vec::new();
    default_stdin_message(&mut m, false);
    assert_eq!(m, vec!["-"]);
    let mut t: Vec<String> = Vec::new();
    default_stdin_message(&mut t, true);
    assert!(t.is_empty());
    let mut g = vec!["hi".to_string()];
    default_stdin_message(&mut g, false);
    assert_eq!(g, vec!["hi"]);
}
