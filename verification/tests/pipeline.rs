use nu_command::bits::rotate_left::SubCommand;
use nu_command::bits::shift_left;
use nu_command::pipeline;
use nu_command::pipeline::{interrupted, Mapped};
use nu_command::span::Span;
use nu_command::value::Value;
use std::sync::atomic::{AtomicBool, Ordering};
use std::sync::Arc;

fn ints(vals: &[i64]) -> Vec<Value> {
    vals.iter().map(|val| Value::test_int(*val)).collect()
}

fn double(value: Value) -> Value {
    match value {
        Value::Int { val, span } => Value::Int { val: val * 2, span },
        other => other,
    }
}

#[test]
fn map_keeps_length_and_order() {
    assert_eq!(pipeline::map(ints(&[1, 2, 3, 4]), double, None), ints(&[2, 4, 6, 8]));
    assert_eq!(pipeline::map(Vec::new(), double, None), Vec::new());
    let flag = Some(Arc::new(AtomicBool::new(false)));
    assert_eq!(pipeline::map(ints(&[5, 6]), double, flag), ints(&[10, 12]));
}

#[test]
fn map_stops_when_the_signal_is_given() {
    let flag = Some(Arc::new(AtomicBool::new(true)));
    assert_eq!(pipeline::map(ints(&[1, 2, 3]), double, flag), Vec::new());
}

#[test]
fn map_asks_the_signal_before_each_value() {
    let flag = Arc::new(AtomicBool::new(false));
    let seen = flag.clone();
    let ctrlc = Some(flag);
    let out = pipeline::map(
        ints(&[1, 2, 3, 4]),
        move |value| {
            if value == Value::test_int(2) {
                seen.store(true, Ordering::SeqCst);
            }
            double(value)
        },
        ctrlc,
    );
    // the value at which the signal came is still finished; nothing after it is begun
    assert_eq!(out, ints(&[2, 4]));
}

#[test]
fn interrupted_reads_the_signal() {
    assert!(!interrupted(&None));
    assert!(!interrupted(&Some(Arc::new(AtomicBool::new(false)))));
    assert!(interrupted(&Some(Arc::new(AtomicBool::new(true)))));
}

#[test]
fn mapped_hands_out_one_value_at_a_pull() {
    let calls = Arc::new(std::sync::atomic::AtomicUsize::new(0));
    let count = calls.clone();
    let mut stream = Mapped::new(
        ints(&[1, 2, 3]),
        move |value| {
            count.fetch_add(1, Ordering::SeqCst);
            double(value)
        },
        None,
    );
    // nothing is worked on before it is asked for
    assert_eq!(calls.load(Ordering::SeqCst), 0);
    assert_eq!(stream.next(), Some(Value::test_int(2)));
    assert_eq!(calls.load(Ordering::SeqCst), 1);
    assert_eq!(stream.next(), Some(Value::test_int(4)));
    assert_eq!(stream.next(), Some(Value::test_int(6)));
    assert_eq!(calls.load(Ordering::SeqCst), 3);
    assert_eq!(stream.next(), None);
    assert_eq!(stream.next(), None);
    assert_eq!(calls.load(Ordering::SeqCst), 3);
}

#[test]
fn mapped_ends_at_the_signal() {
    let flag = Arc::new(AtomicBool::new(false));
    let mut stream = Mapped::new(ints(&[1, 2, 3]), double, Some(flag.clone()));
    assert_eq!(stream.next(), Some(Value::test_int(2)));
    flag.store(true, Ordering::SeqCst);
    assert_eq!(stream.next(), None);
    assert_eq!(stream.next(), None);
}

#[test]
fn step_gives_nothing_after_the_signal() {
    let mut stream = Mapped::new(ints(&[3, 4]), double, None);
    assert_eq!(stream.step(true), None);
    // the value was not used up
    assert_eq!(stream.step(false), Some(Value::test_int(6)));
    assert_eq!(stream.step(true), None);
    assert_eq!(stream.step(false), Some(Value::test_int(8)));
    assert_eq!(stream.step(false), None);
    assert_eq!(stream.step(true), None);
}

#[test]
fn run_gives_a_prefix_when_stopped() {
    let stop = Some(Arc::new(AtomicBool::new(true)));
    let out = SubCommand {}.run(Span::test_data(), 2, false, None, ints(&[1, 2, 3]), stop.clone());
    assert_eq!(out, Ok(Vec::new()));
    let out = shift_left::SubCommand {}.run(Span::test_data(), 2, ints(&[1, 2, 3]), stop.clone());
    assert_eq!(out, Ok(Vec::new()));
    let go = Some(Arc::new(AtomicBool::new(false)));
    let out = SubCommand {}.run(Span::test_data(), 2, false, None, ints(&[1, 2, 3]), go);
    assert_eq!(out, Ok(ints(&[4, 8, 12])));
}
