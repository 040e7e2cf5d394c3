//! Pruning orphaned dependencies: the package manager is asked for them,
//! and those it names are removed together.

use crate::command::{bare, call, with_arg, Call, Invocation};
use crate::text::{lemma_no_lines, lines, split_lines, texts};
use vstd::prelude::*;

verus! {

/// The removal that a query's output calls for: none where it names no
/// package, else one removal of exactly the packages named, in the order
/// in which they were named.
pub open spec fn removal_of(output: Seq<char>) -> Option<Call> {
    if lines(output).len() == 0 {
        None
    } else {
        Some(call("pacman"@, seq!["-Rns"@] + lines(output)))
    }
}

/// Asks for the orphaned dependencies, names only: `pacman -Qdtq`.
pub fn orphan_query() -> (inv: Invocation)
    ensures
        inv@ == call("pacman"@, seq!["-Qdtq"@]),
{
    let inv = with_arg(bare("pacman"), "-Qdtq");
    assert(inv@.args =~= seq!["-Qdtq"@]);
    inv
}

/// Reads the names of the orphaned dependencies off what the query printed.
pub fn orphan_names(output: &str) -> (names: Vec<String>)
    ensures
        texts(names@) == lines(output@),
{
    split_lines(output)
}

/// Decides from what the query printed whether anything is removed, and
/// what: `pacman -Rns` with every name printed.
pub fn prune_orphans(output: &str) -> (removal: Option<Invocation>)
    ensures
        removal is Some <==> removal_of(output@) is Some,
        removal matches Some(inv) ==> removal_of(output@) == Some(inv@),
{
    let names = orphan_names(output);
    if names.len() == 0 {
        return None;
    }
    let mut inv = with_arg(bare("pacman"), "-Rns");
    let mut i: usize = 0;
    assert(inv@.args =~= seq!["-Rns"@] + texts(names@).take(0));
    while i < names.len()
        invariant
            i <= names@.len(),
            inv@.program == "pacman"@,
            inv@.args == seq!["-Rns"@] + texts(names@).take(i as int),
        decreases names@.len() - i,
    {
        let ghost before = inv@.args;
        inv = with_arg(inv, names[i].as_str());
        assert(before.push(names@[i as int]@) =~= seq!["-Rns"@] + texts(names@).take(i + 1));
        i += 1;
    }
    assert(texts(names@).take(names@.len() as int) =~= texts(names@));
    Some(inv)
}

/// Nothing is removed exactly where the query printed no line, which is
/// where it printed nothing at all. Where it printed names, one removal
/// takes exactly those names as its arguments, after the flag.
pub proof fn lemma_removal_takes_the_names(output: Seq<char>)
    ensures
        removal_of(output) is None <==> lines(output).len() == 0,
        removal_of(output) is None <==> output.len() == 0,
        removal_of(output) matches Some(removal) ==> {
            &&& removal.program == "pacman"@
            &&& removal.args.first() == "-Rns"@
            &&& removal.args.drop_first() == lines(output)
        },
{
    lemma_no_lines(output);
    if removal_of(output) is Some {
        assert((seq!["-Rns"@] + lines(output)).drop_first() =~= lines(output));
    }
}

} // verus!
