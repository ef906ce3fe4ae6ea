use crate::shell_error::ShellError;
use crate::signature::{Category, Flag, PositionalArg, Signature};
use crate::span::Span;
use crate::value::Value;
use vstd::prelude::*;

verus! {

/// The command `keep until`, which `take until` has replaced.
#[derive(Clone)]
pub struct KeepUntilDeprecated;

impl KeepUntilDeprecated {
    pub fn name(&self) -> (name: &'static str)
        ensures
            name == "keep until",
    {
        "keep until"
    }

    pub fn signature(&self) -> (sig: Signature)
        ensures
            sig.name == "keep until",
            sig.required_positional@ =~= Seq::<PositionalArg>::empty(),
            sig.named@ =~= Seq::<Flag>::empty(),
            sig.category == Category::Deprecated,
    {
        Signature::build(self.name()).category(Category::Deprecated)
    }

    pub fn usage(&self) -> (usage: &'static str)
        ensures
            usage == "Deprecated command",
    {
        "Deprecated command"
    }

    /// Fails on every input, with the error that names the command to use
    /// in its place.
    pub fn run(&self, head: Span, input: Vec<Value>) -> (result: Result<Vec<Value>, ShellError>)
        ensures
            result matches Err(ShellError::DeprecatedCommand { name, replacement, span })
                && name@ == "keep until"@ && replacement@ == "take until"@ && span == head,
    {
        Err(
            ShellError::DeprecatedCommand {
                name: self.name().to_owned(),
                replacement: "take until".to_owned(),
                span: head,
            },
        )
    }
}

} // verus!
