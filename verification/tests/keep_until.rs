use nu_command::deprecated::keep_until::KeepUntilDeprecated;
use nu_command::shell_error::ShellError;
use nu_command::signature::Category;
use nu_command::span::Span;
use nu_command::value::Value;

#[test]
fn keep_until_describes_itself() {
    let cmd = KeepUntilDeprecated {};
    assert_eq!(cmd.name(), "keep until");
    assert_eq!(cmd.usage(), "Deprecated command");
    let sig = cmd.signature();
    assert_eq!(sig.name, "keep until");
    assert_eq!(sig.category, Category::Deprecated);
    assert!(sig.required_positional.is_empty());
    assert!(sig.named.is_empty());
}

#[test]
fn keep_until_always_fails() {
    let cmd = KeepUntilDeprecated {};
    let head = Span::new(3, 13);
    let expected = Err(ShellError::DeprecatedCommand {
        name: "keep until".to_string(),
        replacement: "take until".to_string(),
        span: head,
    });
    assert_eq!(cmd.run(head, Vec::new()), expected);
    assert_eq!(cmd.run(head, vec![Value::test_int(1), Value::test_int(2)]), expected);
}
