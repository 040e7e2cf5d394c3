//! Updating with an AUR helper: the known helpers are looked for in a fixed
//! order of preference, and the first one that is installed does the update.

use crate::command::{bare, call, Call, Invocation};
use vstd::prelude::*;

verus! {

/// How many helpers are known.
pub const HELPER_COUNT: usize = 4;

/// Where each known helper is installed, in the order of preference.
pub open spec fn helper_paths_of() -> Seq<Seq<char>> {
    seq!["/bin/yay"@, "/bin/trizen"@, "/bin/pikaur"@, "/bin/paru"@]
}

/// The program that each known helper is started as, in the same order.
pub open spec fn helper_programs_of() -> Seq<Seq<char>> {
    seq!["yay"@, "trizen"@, "pikaur"@, "paru"@]
}

/// The first place at or after `from` at which `present` holds `true`.
pub open spec fn first_present_from(present: Seq<bool>, from: int) -> Option<int>
    decreases present.len() - from,
{
    if from < 0 || from >= present.len() {
        None
    } else if present[from] {
        Some(from)
    } else {
        first_present_from(present, from + 1)
    }
}

/// The first place at which `present` holds `true`.
pub open spec fn first_present(present: Seq<bool>) -> Option<int> {
    first_present_from(present, 0)
}

/// What is run when the helpers were found as `present` says: the first
/// helper that is there, without arguments, and nothing where none is.
pub open spec fn helper_run_of(present: Seq<bool>) -> Option<Call> {
    match first_present(present) {
        Some(i) => Some(call(helper_programs_of()[i], Seq::empty())),
        None => None,
    }
}

/// The paths to look for, in the order of preference.
pub fn helper_paths() -> (paths: [&'static str; 4])
    ensures
        paths@.len() == HELPER_COUNT,
        forall|i: int| 0 <= i < HELPER_COUNT ==> (#[trigger] paths@[i])@ == helper_paths_of()[i],
{
    ["/bin/yay", "/bin/trizen", "/bin/pikaur", "/bin/paru"]
}

/// The programs to start, in the same order.
pub fn helper_programs() -> (programs: [&'static str; 4])
    ensures
        programs@.len() == HELPER_COUNT,
        forall|i: int|
            0 <= i < HELPER_COUNT ==> (#[trigger] programs@[i])@ == helper_programs_of()[i],
{
    ["yay", "trizen", "pikaur", "paru"]
}

/// Decides which helper does the update. `present` says of each known
/// helper, in the order of `helper_paths`, whether its path exists. `None`
/// says that no helper was found and that nothing is run.
pub fn update_with_aur_helper(present: [bool; 4]) -> (run: Option<Invocation>)
    ensures
        run is Some <==> helper_run_of(present@) is Some,
        run matches Some(inv) ==> helper_run_of(present@) == Some(inv@),
{
    let programs = helper_programs();
    let mut i: usize = 0;
    while i < HELPER_COUNT
        invariant
            i <= HELPER_COUNT,
            present@.len() == HELPER_COUNT,
            programs@.len() == HELPER_COUNT,
            forall|k: int|
                0 <= k < HELPER_COUNT ==> (#[trigger] programs@[k])@ == helper_programs_of()[k],
            first_present(present@) == first_present_from(present@, i as int),
        decreases HELPER_COUNT - i,
    {
        if present[i] {
            return Some(bare(programs[i]));
        }
        i += 1;
    }
    None
}

/// `first_present_from` finds the least place from `from` on that holds
/// `true`, and finds none only where there is none.
proof fn lemma_first_present_from(present: Seq<bool>, from: int)
    requires
        0 <= from,
    ensures
        match first_present_from(present, from) {
            Some(i) => {
                &&& from <= i < present.len()
                &&& present[i]
                &&& forall|j: int| from <= j < i ==> !present[j]
            },
            None => forall|j: int| from <= j < present.len() ==> !present[j],
        },
    decreases present.len() - from,
{
    if from < present.len() && !present[from] {
        lemma_first_present_from(present, from + 1);
    }
}

/// The helper that is run is the first of the known ones that is present:
/// it is present and none before it is. None is run only where none is
/// present.
pub proof fn lemma_first_present(present: Seq<bool>)
    ensures
        match first_present(present) {
            Some(i) => {
                &&& 0 <= i < present.len()
                &&& present[i]
                &&& forall|j: int| 0 <= j < i ==> !present[j]
            },
            None => forall|j: int| 0 <= j < present.len() ==> !present[j],
        },
{
    lemma_first_present_from(present, 0);
}

/// Of four findings, the helper that is run is the first one found; none
/// is run exactly where none was found.
pub proof fn lemma_first_helper_is_run(present: Seq<bool>)
    requires
        present.len() == HELPER_COUNT,
    ensures
        helper_run_of(present) is None <==> forall|j: int|
            0 <= j < HELPER_COUNT ==> !present[j],
        helper_run_of(present) matches Some(run) ==> exists|i: int|
            {
                &&& 0 <= i < HELPER_COUNT
                &&& present[i]
                &&& forall|j: int| 0 <= j < i ==> !present[j]
                &&& run == call(helper_programs_of()[i], Seq::empty())
            },
{
    lemma_first_present(present);
}

} // verus!
