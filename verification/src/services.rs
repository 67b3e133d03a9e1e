//! What the panel asks of the media player and of the mixer, and what it
//! reads in their reports. Nothing here runs a tool: a function that stands
//! for a request hands back the command line to run.

use vstd::prelude::*;

pub mod track;
pub mod volume;

verus! {

/// A command line for an outside tool.
#[derive(Debug, PartialEq, Eq)]
pub struct Invocation {
    pub program: String,
    pub args: Vec<String>,
}

impl View for Invocation {
    type V = Seq<Seq<char>>;

    /// The words of the command line: the program, then its arguments.
    open spec fn view(&self) -> Seq<Seq<char>> {
        seq![self.program@] + Seq::new(self.args@.len(), |i: int| self.args@[i]@)
    }
}

impl Invocation {
    /// A command line of a program and no arguments yet.
    pub fn new(program: &str) -> (call: Invocation)
        ensures
            call@ == seq![program@],
    {
        let call = Invocation { program: program.to_owned(), args: Vec::new() };
        assert(call@ =~= seq![program@]);
        call
    }

    /// Adds one argument at the end.
    pub fn arg(&mut self, word: String)
        ensures
            final(self)@ == old(self)@.push(word@),
    {
        self.args.push(word);
        assert(self@ =~= old(self)@.push(word@));
    }
}

} // verus!
