//! The programs that the tool starts, as plain values: a program's name
//! and the arguments it is started with.

use crate::text::{lemma_texts_push, texts};
use vstd::prelude::*;

verus! {

/// One start of another program.
#[derive(Debug, PartialEq, Eq)]
pub struct Invocation {
    /// The program, looked up as the system looks up a command.
    pub program: String,
    /// Its arguments, in order.
    pub args: Vec<String>,
}

/// What an `Invocation` stands for.
pub struct Call {
    pub program: Seq<char>,
    pub args: Seq<Seq<char>>,
}

impl View for Invocation {
    type V = Call;

    open spec fn view(&self) -> Call {
        Call { program: self.program@, args: texts(self.args@) }
    }
}

/// The call of `program` with `args`.
pub open spec fn call(program: Seq<char>, args: Seq<Seq<char>>) -> Call {
    Call { program, args }
}

/// An invocation of `program` without arguments.
pub fn bare(program: &str) -> (inv: Invocation)
    ensures
        inv@ == call(program@, Seq::empty()),
{
    let inv = Invocation { program: program.to_owned(), args: Vec::new() };
    assert(texts(inv.args@) =~= Seq::empty());
    inv
}

/// `inv` with one more argument at the end.
pub fn with_arg(inv: Invocation, arg: &str) -> (out: Invocation)
    ensures
        out@ == call(inv@.program, inv@.args.push(arg@)),
{
    let mut out = inv;
    let ghost before = out.args@;
    let owned = arg.to_owned();
    out.args.push(owned);
    proof {
        lemma_texts_push(before, owned);
    }
    out
}

/// Brings every installed package up to date: `pacman -Syu`.
pub fn full_update() -> (inv: Invocation)
    ensures
        inv@ == call("pacman"@, seq!["-Syu"@]),
{
    let inv = with_arg(bare("pacman"), "-Syu");
    assert(inv@.args =~= seq!["-Syu"@]);
    inv
}

/// Shows the configuration files that an update left to merge: `pacdiff`.
pub fn pacdiff_check() -> (inv: Invocation)
    ensures
        inv@ == call("pacdiff"@, Seq::empty()),
{
    bare("pacdiff")
}

} // verus!
