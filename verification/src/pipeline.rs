use crate::value::Value;
use std::sync::atomic::{AtomicBool, Ordering};
use std::sync::Arc;
use vstd::prelude::*;

verus! {

/// Whether the signal to stop has been given. Without a signal nothing stops.
pub fn interrupted(ctrlc: &Option<Arc<AtomicBool>>) -> (stop: bool)
    ensures
        ctrlc is None ==> !stop,
{
    match ctrlc {
        None => false,
        Some(flag) => flag.load(Ordering::SeqCst),
    }
}

/// The values of an input, each of which `f` is to work on when it is asked
/// for, and not before. What has been handed out does not come again.
pub struct Mapped<F> {
    /// What is still to come, the next value last.
    rest: Vec<Value>,
    f: F,
    ctrlc: Option<Arc<AtomicBool>>,
}

impl<F: Fn(Value) -> Value> Mapped<F> {
    /// The values of the input that have not been asked for yet, in the order
    /// of the input.
    pub closed spec fn remaining(&self) -> Seq<Value> {
        self.rest@.reverse()
    }

    /// The function that works on each value.
    pub closed spec fn mapper(&self) -> F {
        self.f
    }

    /// The signal that ends the sequence early, if there is one.
    pub closed spec fn signal(&self) -> Option<Arc<AtomicBool>> {
        self.ctrlc
    }

    /// Whether `f` can take every value that is still to come.
    pub open spec fn ready(&self) -> bool {
        forall|i: int|
            0 <= i < self.remaining().len() ==> self.mapper().requires((#[trigger] self.remaining()[i],))
    }

    /// Sets `f` on the values of `input`. No value is worked on yet.
    pub fn new(input: Vec<Value>, f: F, ctrlc: Option<Arc<AtomicBool>>) -> (stream: Self)
        ensures
            stream.remaining() == input@,
            stream.mapper() == f,
            stream.signal() == ctrlc,
    {
        let ghost items = input@;
        let mut input = input;
        let mut rest: Vec<Value> = Vec::new();
        while input.len() > 0
            invariant
                input@.len() + rest@.len() == items.len(),
                input@ == items.subrange(0, input@.len() as int),
                rest@.reverse() == items.subrange(input@.len() as int, items.len() as int),
            decreases input.len(),
        {
            let ghost before = rest@;
            let ghost n = input@.len() as int;
            let value = input.pop().unwrap();
            rest.push(value);
            assert(rest@.reverse() =~= seq![value] + before.reverse());
            assert(input@ =~= items.subrange(0, n - 1));
            assert(seq![value] + items.subrange(n, items.len() as int) =~= items.subrange(
                n - 1,
                items.len() as int,
            ));
        }
        assert(items.subrange(0, items.len() as int) =~= items);
        Mapped { rest, f, ctrlc }
    }

    /// One pull, given whether the signal to stop has come. After the signal
    /// nothing is handed out and nothing is used up. Else the next value of the
    /// input is used up and what `f` makes of it is handed out, or nothing at
    /// the end of the input.
    pub fn step(&mut self, stop: bool) -> (out: Option<Value>)
        requires
            old(self).ready(),
        ensures
            final(self).mapper() == old(self).mapper(),
            final(self).signal() == old(self).signal(),
            final(self).ready(),
            stop || old(self).remaining().len() == 0 ==> out is None && final(self).remaining() == old(
                self,
            ).remaining(),
            !stop && old(self).remaining().len() > 0 ==> out is Some && old(self).mapper().ensures(
                (old(self).remaining()[0],),
                out.unwrap(),
            ) && final(self).remaining() == old(self).remaining().drop_first(),
    {
        if stop {
            return None;
        }
        let ghost before = self.rest@;
        match self.rest.pop() {
            None => None,
            Some(value) => {
                assert(before.reverse().drop_first() =~= self.rest@.reverse());
                assert(before.reverse()[0] == value);
                Some((self.f)(value))
            },
        }
    }

    /// The next value of the sequence. The signal is asked first: once it has
    /// been given, the sequence is at its end.
    pub fn next(&mut self) -> (out: Option<Value>)
        requires
            old(self).ready(),
        ensures
            final(self).mapper() == old(self).mapper(),
            final(self).signal() == old(self).signal(),
            final(self).ready(),
            match out {
                Some(value) => {
                    &&& old(self).remaining().len() > 0
                    &&& old(self).mapper().ensures((old(self).remaining()[0],), value)
                    &&& final(self).remaining() == old(self).remaining().drop_first()
                },
                None => {
                    &&& final(self).remaining() == old(self).remaining()
                    &&& old(self).signal() is None ==> old(self).remaining().len() == 0
                },
            },
    {
        let stop = interrupted(&self.ctrlc);
        self.step(stop)
    }
}

/// Hands the values of `input` to `f` one by one, in their order, and collects
/// what it returns. The signal is asked before each value; once it is given,
/// no further value is taken.
pub fn map<F: Fn(Value) -> Value>(input: Vec<Value>, f: F, ctrlc: Option<Arc<AtomicBool>>) -> (out:
    Vec<Value>)
    requires
        forall|i: int| 0 <= i < input.len() ==> f.requires((#[trigger] input[i],)),
    ensures
        out.len() <= input.len(),
        forall|i: int| 0 <= i < out.len() ==> f.ensures((input[i],), #[trigger] out[i]),
        ctrlc is None ==> out.len() == input.len(),
{
    let ghost items = input@;
    let mut stream = Mapped::new(input, f, ctrlc);
    let mut out: Vec<Value> = Vec::new();
    loop
        invariant
            stream.ready(),
            stream.mapper() == f,
            stream.signal() == ctrlc,
            out.len() <= items.len(),
            stream.remaining() == items.skip(out.len() as int),
            forall|i: int| 0 <= i < out.len() ==> f.ensures((items[i],), #[trigger] out[i]),
        ensures
            ctrlc is None ==> out.len() == items.len(),
        decreases items.len() - out.len(),
    {
        match stream.next() {
            None => {
                break;
            },
            Some(value) => {
                assert(items.skip(out.len() as int).drop_first() =~= items.skip(out.len() + 1));
                out.push(value);
            },
        }
    }
    out
}

} // verus!
