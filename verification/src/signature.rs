use vstd::prelude::*;

verus! {

/// What kind of text an argument is written as.
#[derive(Clone, Copy, Debug, PartialEq, Eq, Structural)]
pub enum SyntaxShape {
    Int,
    String,
}

/// The group of commands that a command is listed under.
#[derive(Clone, Copy, Debug, PartialEq, Eq, Structural)]
pub enum Category {
    Default,
    Bits,
    Deprecated,
}

/// An argument that is told by its position.
#[derive(Clone, Copy, Debug, PartialEq, Eq)]
pub struct PositionalArg {
    pub name: &'static str,
    pub desc: &'static str,
    pub shape: SyntaxShape,
}

/// An argument that is told by its name: a switch where it takes no value.
#[derive(Clone, Copy, Debug, PartialEq, Eq)]
pub struct Flag {
    pub long: &'static str,
    pub short: Option<char>,
    pub arg: Option<SyntaxShape>,
    pub desc: &'static str,
}

/// The name of a command and the arguments that it takes.
#[derive(Clone, Debug, PartialEq, Eq)]
pub struct Signature {
    pub name: &'static str,
    pub required_positional: Vec<PositionalArg>,
    pub named: Vec<Flag>,
    pub category: Category,
}

impl Signature {
    /// The signature of a command that takes no argument yet.
    pub fn build(name: &'static str) -> (sig: Signature)
        ensures
            sig.name == name,
            sig.required_positional@ == Seq::<PositionalArg>::empty(),
            sig.named@ == Seq::<Flag>::empty(),
            sig.category == Category::Default,
    {
        Signature {
            name,
            required_positional: Vec::new(),
            named: Vec::new(),
            category: Category::Default,
        }
    }

    /// Adds a positional argument that must be given.
    pub fn required(self, name: &'static str, shape: SyntaxShape, desc: &'static str) -> (sig:
        Signature)
        ensures
            sig.name == self.name,
            sig.required_positional@ == self.required_positional@.push(
                PositionalArg { name, desc, shape },
            ),
            sig.named@ == self.named@,
            sig.category == self.category,
    {
        let mut sig = self;
        sig.required_positional.push(PositionalArg { name, desc, shape });
        sig
    }

    /// Adds a flag that takes no value.
    pub fn switch(self, name: &'static str, desc: &'static str, short: Option<char>) -> (sig:
        Signature)
        ensures
            sig.name == self.name,
            sig.required_positional@ == self.required_positional@,
            sig.named@ == self.named@.push(Flag { long: name, short, arg: None, desc }),
            sig.category == self.category,
    {
        let mut sig = self;
        sig.named.push(Flag { long: name, short, arg: None, desc });
        sig
    }

    /// Adds a flag that takes a value.
    pub fn named(
        self,
        name: &'static str,
        shape: SyntaxShape,
        desc: &'static str,
        short: Option<char>,
    ) -> (sig: Signature)
        ensures
            sig.name == self.name,
            sig.required_positional@ == self.required_positional@,
            sig.named@ == self.named@.push(Flag { long: name, short, arg: Some(shape), desc }),
            sig.category == self.category,
    {
        let mut sig = self;
        sig.named.push(Flag { long: name, short, arg: Some(shape), desc });
        sig
    }

    /// Sets the group that the command is listed under.
    pub fn category(self, category: Category) -> (sig: Signature)
        ensures
            sig.name == self.name,
            sig.required_positional@ == self.required_positional@,
            sig.named@ == self.named@,
            sig.category == category,
    {
        let mut sig = self;
        sig.category = category;
        sig
    }
}

} // verus!
