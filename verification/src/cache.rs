//! Clearing the package cache: the user says how many versions of each
//! package stay, and the cache is cut down to that.

use crate::command::{bare, call, with_arg, Call, Invocation};
use crate::retention::{default_retention, retention, retention_of, u16_of};
use crate::text::trimmed;
use vstd::prelude::*;

verus! {

/// The clearing that a reply to the prompt calls for: `paccache -r -k`
/// with the retention asked for, or nothing where the reply is no number.
pub open spec fn cache_clearing_of(reply: Seq<char>) -> Option<Call> {
    match retention_of(reply) {
        Some(kept) => Some(call("paccache"@, seq!["-r"@, "-k"@, kept])),
        None => None,
    }
}

/// Decides from the reply to "how many versions to keep" what is run.
/// `None` says that the reply is no number and that nothing is run.
pub fn clear_paccache(reply: &str) -> (clearing: Option<Invocation>)
    ensures
        clearing is Some <==> cache_clearing_of(reply@) is Some,
        clearing matches Some(inv) ==> cache_clearing_of(reply@) == Some(inv@),
{
    match retention(reply) {
        Some(kept) => {
            let inv = with_arg(with_arg(with_arg(bare("paccache"), "-r"), "-k"), kept);
            assert(inv@.args =~= seq!["-r"@, "-k"@, kept@]);
            Some(inv)
        },
        None => None,
    }
}

/// A blank reply keeps the default of three versions.
pub proof fn lemma_blank_reply_keeps_default(reply: Seq<char>)
    requires
        trimmed(reply).len() == 0,
    ensures
        cache_clearing_of(reply) == Some(call("paccache"@, seq!["-r"@, "-k"@, "3"@])),
{
    reveal_strlit("3");
    assert("3"@ =~= default_retention());
}

/// A reply that is a 16-bit numeral keeps that many versions: the numeral
/// is handed on as it was typed, without the white space around it.
pub proof fn lemma_number_is_kept(reply: Seq<char>)
    requires
        u16_of(trimmed(reply)) is Some,
    ensures
        cache_clearing_of(reply) == Some(call("paccache"@, seq!["-r"@, "-k"@, trimmed(reply)])),
{
}

/// Any other reply runs nothing.
pub proof fn lemma_other_reply_clears_nothing(reply: Seq<char>)
    requires
        trimmed(reply).len() > 0,
        u16_of(trimmed(reply)) is None,
    ensures
        cache_clearing_of(reply) is None,
{
}

} // verus!
