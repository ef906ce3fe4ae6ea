use crate::bits::rotate::{
    apply, apply_spec, get_rotate, get_rotate_spec, Direction, Narrowed, RotationRequest,
};
use crate::bits::{resolve_static, resolve_static_spec, NumberBytes};
use crate::example::Example;
use crate::shell_error::ShellError;
use crate::signature::{Category, Flag, PositionalArg, Signature, SyntaxShape};
use crate::span::{Span, Spanned};
use crate::value::Value;
use std::sync::atomic::AtomicBool;
use std::sync::Arc;
use vstd::prelude::*;

verus! {

/// The command `bits rotate-left`.
#[derive(Clone)]
pub struct SubCommand;

/// What `bits rotate-left` makes of one value: see `apply_spec`. Of `bits` only
/// the low 32 bits count.
pub open spec fn operate_spec(
    value: Value,
    bits: usize,
    head: Span,
    signed: bool,
    number_size: NumberBytes,
) -> Value {
    apply_spec(
        value,
        RotationRequest {
            amount: bits as u32,
            direction: Direction::Left,
            force_signed: signed,
            width: number_size,
        },
        head,
    )
}

impl SubCommand {
    pub fn name(&self) -> (name: &'static str)
        ensures
            name == "bits rotate-left",
    {
        "bits rotate-left"
    }

    pub fn signature(&self) -> (sig: Signature)
        ensures
            sig.name == "bits rotate-left",
            sig.required_positional@ =~= seq![
                PositionalArg {
                    name: "bits",
                    desc: "number of bits to rotate left",
                    shape: SyntaxShape::Int,
                },
            ],
            sig.named@ =~= seq![
                Flag {
                    long: "signed",
                    short: Some('s'),
                    arg: None,
                    desc: "always treat input number as a signed number",
                },
                Flag {
                    long: "number-bytes",
                    short: Some('n'),
                    arg: Some(SyntaxShape::String),
                    desc: "the size of number in bytes, it can be 1, 2, 4, 8, auto, default value `auto`",
                },
            ],
            sig.category == Category::Bits,
    {
        Signature::build("bits rotate-left").required(
            "bits",
            SyntaxShape::Int,
            "number of bits to rotate left",
        ).switch("signed", "always treat input number as a signed number", Some('s')).named(
            "number-bytes",
            SyntaxShape::String,
            "the size of number in bytes, it can be 1, 2, 4, 8, auto, default value `auto`",
            Some('n'),
        ).category(Category::Bits)
    }

    pub fn usage(&self) -> (usage: &'static str)
        ensures
            usage == "Bitwise rotate left for integers",
    {
        "Bitwise rotate left for integers"
    }

    pub fn search_terms(&self) -> (terms: Vec<&'static str>)
        ensures
            terms@ =~= seq!["rol"],
    {
        vec!["rol"]
    }

    /// Runs the command on the values of `input`. A size of number that does
    /// not exist fails the run before any value is looked at. Else each value
    /// is rotated by itself, in the order of the input, until the input ends
    /// or the signal to stop is given.
    pub fn run(
        &self,
        head: Span,
        bits: usize,
        signed: bool,
        number_bytes: Option<Spanned<String>>,
        input: Vec<Value>,
        ctrlc: Option<Arc<AtomicBool>>,
    ) -> (result: Result<Vec<Value>, ShellError>)
        ensures
            match resolve_static_spec(number_bytes) {
                Err(error) => result == Err::<Vec<Value>, ShellError>(error),
                Ok(bytes_len) => {
                    &&& result matches Ok(out)
                    &&& out.len() <= input.len()
                    &&& forall|i: int|
                        0 <= i < out.len() ==> #[trigger] out[i] == operate_spec(
                            input[i],
                            bits,
                            head,
                            signed,
                            bytes_len,
                        )
                    &&& ctrlc is None ==> out.len() == input.len()
                },
            },
    {
        let bytes_len = match resolve_static(&number_bytes) {
            Ok(bytes_len) => bytes_len,
            Err(error) => {
                return Err(error);
            },
        };
        let each = |value: Value| -> (out: Value)
            ensures
                out == operate_spec(value, bits, head, signed, bytes_len),
            { operate(value, bits, head, signed, bytes_len) };
        Ok(crate::pipeline::map(input, each, ctrlc))
    }

    pub fn examples(&self) -> (examples: Vec<Example>)
        ensures
            examples.len() == 2,
            examples[0].example == "17 | bits rotate-left 2",
            examples[0].description == "Rotate left a number with 2 bits",
            examples[0].result == Some(Value::Int { val: 68, span: Span { start: 0, end: 0 } }),
            examples[1].example == "[5 3 2] | bits rotate-left 2",
            examples[1].description == "Rotate left a list of numbers",
            examples[1].result matches Some(Value::List { vals, span }) && span == (Span {
                start: 0,
                end: 0,
            }) && vals@ =~= seq![
                Value::Int { val: 20, span: Span { start: 0, end: 0 } },
                Value::Int { val: 12, span: Span { start: 0, end: 0 } },
                Value::Int { val: 8, span: Span { start: 0, end: 0 } },
            ],
    {
        vec![
            Example {
                description: "Rotate left a number with 2 bits",
                example: "17 | bits rotate-left 2",
                result: Some(Value::Int { val: 68, span: Span::test_data() }),
            },
            Example {
                description: "Rotate left a list of numbers",
                example: "[5 3 2] | bits rotate-left 2",
                result: Some(
                    Value::List {
                        vals: vec![Value::test_int(20), Value::test_int(12), Value::test_int(8)],
                        span: Span::test_data(),
                    },
                ),
            },
        ]
    }
}

/// Rotates `val` to the left by `bits` places within its own width.
pub fn get_rotate_left(val: Narrowed, bits: u32, span: Span) -> (out: Value)
    ensures
        out == get_rotate_spec(val, bits, Direction::Left, span),
{
    get_rotate(val, bits, Direction::Left, span)
}

/// Rotates one value of the input to the left.
pub fn operate(value: Value, bits: usize, head: Span, signed: bool, number_size: NumberBytes) -> (out:
    Value)
    ensures
        out == operate_spec(value, bits, head, signed, number_size),
{
    let bits = #[verifier::truncate] (bits as u32);
    apply(
        value,
        &RotationRequest {
            amount: bits,
            direction: Direction::Left,
            force_signed: signed,
            width: number_size,
        },
        head,
    )
}

} // verus!
