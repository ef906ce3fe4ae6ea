use crate::example::Example;
use crate::shell_error::ShellError;
use crate::signature::{Category, Flag, PositionalArg, Signature, SyntaxShape};
use crate::span::Span;
use crate::value::Value;
use std::sync::atomic::AtomicBool;
use std::sync::Arc;
use vstd::prelude::*;

verus! {

/// `i64::checked_shl` of std: `x << rhs`, where the bits pushed out at the top
/// are lost, or nothing where `rhs` is the number of bits of `x` or more.
pub assume_specification[ i64::checked_shl ](x: i64, rhs: u32) -> (shifted: Option<i64>)
    ensures
        shifted == (if rhs < 64 {
            Some(x << rhs)
        } else {
            None::<i64>
        }),
;

/// The command `bits shift-left`.
#[derive(Clone)]
pub struct SubCommand;

/// By how many places a shift by `bits` moves the bits of a 64 bit number.
pub open spec fn shift_bits_spec(bits: usize) -> u32 {
    (bits % 64) as u32
}

/// What `bits shift-left` makes of one value. The bits of an integer move
/// `bits % 64` places to the left within 64 bits, and the integer stays at its
/// place in the source. Any other value becomes the error that says so, at the
/// place of the value or, where it has none, at `head`.
pub open spec fn operate_spec(value: Value, bits: usize, head: Span) -> Value {
    match value {
        Value::Int { val, span } => Value::Int { val: val << shift_bits_spec(bits), span },
        _ => Value::Error {
            error: ShellError::UnsupportedInput {
                input_type: value.get_type(),
                span: match value.span() {
                    Some(span) => span,
                    None => head,
                },
            },
        },
    }
}

impl SubCommand {
    pub fn name(&self) -> (name: &'static str)
        ensures
            name == "bits shift-left",
    {
        "bits shift-left"
    }

    pub fn signature(&self) -> (sig: Signature)
        ensures
            sig.name == "bits shift-left",
            sig.required_positional@ =~= seq![
                PositionalArg {
                    name: "bits",
                    desc: "number of bits to shift left",
                    shape: SyntaxShape::Int,
                },
            ],
            sig.named@ =~= Seq::<Flag>::empty(),
            sig.category == Category::Bits,
    {
        Signature::build("bits shift-left").required(
            "bits",
            SyntaxShape::Int,
            "number of bits to shift left",
        ).category(Category::Bits)
    }

    pub fn usage(&self) -> (usage: &'static str)
        ensures
            usage == "Bitwise shift left for integers",
    {
        "Bitwise shift left for integers"
    }

    pub fn search_terms(&self) -> (terms: Vec<&'static str>)
        ensures
            terms@ =~= seq!["shl"],
    {
        vec!["shl"]
    }

    /// Runs the command on the values of `input`: each value is shifted by
    /// itself, in the order of the input, until the input ends or the signal
    /// to stop is given.
    pub fn run(
        &self,
        head: Span,
        bits: usize,
        input: Vec<Value>,
        ctrlc: Option<Arc<AtomicBool>>,
    ) -> (result: Result<Vec<Value>, ShellError>)
        ensures
            result matches Ok(out) && out.len() <= input.len() && (forall|i: int|
                0 <= i < out.len() ==> #[trigger] out[i] == operate_spec(input[i], bits, head)) && (
            ctrlc is None ==> out.len() == input.len()),
    {
        let each = |value: Value| -> (out: Value)
            ensures
                out == operate_spec(value, bits, head),
            { operate(value, bits, head) };
        Ok(crate::pipeline::map(input, each, ctrlc))
    }

    pub fn examples(&self) -> (examples: Vec<Example>)
        ensures
            examples.len() == 2,
            examples[0].example == "2 | bits shift-left 8",
            examples[0].description == "Shift left a number with 2 bits",
            examples[0].result == Some(Value::Int { val: 512, span: Span { start: 0, end: 0 } }),
            examples[1].example == "[5 3 2] | bits shift-left 2",
            examples[1].description == "Shift left a list of numbers",
            examples[1].result matches Some(Value::List { vals, span }) && span == (Span {
                start: 0,
                end: 0,
            }) && vals@ =~= seq![
                Value::Int { val: 20, span: Span { start: 0, end: 0 } },
                Value::Int { val: 12, span: Span { start: 0, end: 0 } },
                Value::Int { val: 8, span: Span { start: 0, end: 0 } },
            ],
    {
        vec![
            Example {
                description: "Shift left a number with 2 bits",
                example: "2 | bits shift-left 8",
                result: Some(Value::Int { val: 512, span: Span::test_data() }),
            },
            Example {
                description: "Shift left a list of numbers",
                example: "[5 3 2] | bits shift-left 2",
                result: Some(
                    Value::List {
                        vals: vec![Value::test_int(20), Value::test_int(12), Value::test_int(8)],
                        span: Span::test_data(),
                    },
                ),
            },
        ]
    }
}

/// Shifts one value of the input to the left.
pub fn operate(value: Value, bits: usize, head: Span) -> (out: Value)
    ensures
        out == operate_spec(value, bits, head),
{
    match value {
        Value::Int { val, span } => {
            let shift_bits = (((bits % 64) + 64) % 64) as u32;
            match val.checked_shl(shift_bits) {
                Some(val) => Value::Int { val, span },
                None => Value::Error {
                    error: ShellError::ShiftLeftOverflow { val, bits: shift_bits, span },
                },
            }
        },
        other => {
            let span = match other.span() {
                Some(span) => span,
                None => head,
            };
            Value::Error { error: ShellError::UnsupportedInput { input_type: other.get_type(), span } }
        },
    }
}

} // verus!
