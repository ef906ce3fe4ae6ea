use nu_command::bits::rotate::{Direction, Narrowed};
use nu_command::shell_error::ShellError;
use nu_command::signature::{Category, Flag, PositionalArg, Signature, SyntaxShape};
use nu_command::span::Span;
use nu_command::text::same_text;
use nu_command::value::{Type, Value};

#[test]
fn spans() {
    assert_eq!(Span::new(3, 9), Span { start: 3, end: 9 });
    assert_eq!(Span::unknown(), Span { start: 0, end: 0 });
    assert_eq!(Span::test_data(), Span { start: 0, end: 0 });
}

#[test]
fn value_types_and_spans() {
    let at = Span::new(3, 9);
    let int = Value::Int { val: 5, span: at };
    assert_eq!(int.get_type(), Type::Int);
    assert_eq!(int.span(), Some(at));
    let list = Value::List { vals: vec![Value::test_int(1)], span: at };
    assert_eq!(list.get_type(), Type::List);
    assert_eq!(list.span(), Some(at));
    let error = Value::Error { error: ShellError::InvalidNumberBytes { span: at } };
    assert_eq!(error.get_type(), Type::Error);
    assert_eq!(error.span(), Some(at));
    let other = Value::Other { ty: "string".to_string(), span: None };
    assert_eq!(other.get_type(), Type::Other("string".to_string()));
    assert_eq!(other.span(), None);
    let other = Value::Other { ty: "string".to_string(), span: Some(at) };
    assert_eq!(other.span(), Some(at));
    assert_eq!(Value::test_int(7), Value::Int { val: 7, span: Span::test_data() });
}

#[test]
fn errors_know_their_span() {
    let at = Span::new(3, 9);
    assert_eq!(ShellError::UnsupportedInput { input_type: Type::List, span: at }.span(), at);
    assert_eq!(ShellError::InvalidNumberBytes { span: at }.span(), at);
    let overflow = ShellError::RotateOverflow {
        val: Narrowed::U64(1),
        bits: 1,
        direction: Direction::Right,
        span: at,
    };
    assert_eq!(overflow.span(), at);
    assert_eq!(ShellError::ShiftLeftOverflow { val: 1, bits: 64, span: at }.span(), at);
    let deprecated = ShellError::DeprecatedCommand {
        name: "a".to_string(),
        replacement: "b".to_string(),
        span: at,
    };
    assert_eq!(deprecated.span(), at);
}

#[test]
fn same_text_compares_characters() {
    assert!(same_text("", ""));
    assert!(same_text("auto", "auto"));
    assert!(!same_text("auto", "aut"));
    assert!(!same_text("aut", "auto"));
    assert!(!same_text("auto", "autO"));
    assert!(!same_text("1", "2"));
    assert!(same_text("é1", "é1"));
    assert!(!same_text("é", "e"));
}

#[test]
fn signature_builder_adds_in_order() {
    let sig = Signature::build("demo");
    assert_eq!(sig.name, "demo");
    assert!(sig.required_positional.is_empty());
    assert!(sig.named.is_empty());
    assert_eq!(sig.category, Category::Default);
    let sig = sig
        .required("first", SyntaxShape::Int, "the first")
        .switch("quiet", "say less", Some('q'))
        .required("second", SyntaxShape::String, "the second")
        .named("level", SyntaxShape::Int, "how much", None)
        .category(Category::Bits);
    assert_eq!(sig.name, "demo");
    assert_eq!(
        sig.required_positional,
        vec![
            PositionalArg { name: "first", desc: "the first", shape: SyntaxShape::Int },
            PositionalArg { name: "second", desc: "the second", shape: SyntaxShape::String },
        ]
    );
    assert_eq!(
        sig.named,
        vec![
            Flag { long: "quiet", short: Some('q'), arg: None, desc: "say less" },
            Flag { long: "level", short: None, arg: Some(SyntaxShape::Int), desc: "how much" },
        ]
    );
    assert_eq!(sig.category, Category::Bits);
}
