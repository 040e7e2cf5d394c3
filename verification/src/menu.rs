//! The menu: one line of input, each of whose characters selects an action
//! by itself, so that `1425` asks for four actions in that order. Every
//! other character of the line is reported, white space too.

use crate::command::{call, full_update, pacdiff_check, Call, Invocation};
use crate::journal::{journal_usage, LogStage};
use crate::orphans::orphan_query;
use crate::text::{chars_of, lemma_no_line_ending, strip_line_ending, without_line_ending};
use vstd::prelude::*;

verus! {

/// What the menu offers.
#[derive(Clone, Copy, Debug, PartialEq, Eq)]
pub enum Action {
    /// `1`: update all packages.
    UpdateAll,
    /// `2`: update all packages, those of the AUR included.
    UpdateAllWithAur,
    /// `3`: remove dependencies that nothing needs any more.
    PruneOrphans,
    /// `4`: look for configuration files left to merge.
    CheckPacdiffs,
    /// `5`: clear the package cache.
    ClearCache,
    /// `6`: clear the journal logs.
    ClearLogs,
}

/// What one character of the menu line leads to.
#[derive(Clone, Copy, Debug, PartialEq, Eq)]
pub enum Choice {
    /// The character selects this action.
    Run(Action),
    /// The character selects nothing: it is reported and passed over.
    Invalid(char),
}

/// What an action starts with.
#[derive(Debug, PartialEq, Eq)]
pub enum Opening {
    /// Run this, and the action is done.
    Run(Invocation),
    /// Look which of the known AUR helpers are there; the findings decide
    /// what is run.
    FindHelper,
    /// Run this and collect what it prints; the output decides what is run.
    Query(Invocation),
    /// Ask how many package versions to keep; the reply decides what is
    /// run.
    AskVersions,
    /// Run this, then put the question of the stage; the replies decide
    /// what is run.
    ShowThenAsk(Invocation, LogStage),
}

/// What an `Opening` stands for.
pub enum OpeningView {
    Run(Call),
    FindHelper,
    Query(Call),
    AskVersions,
    ShowThenAsk(Call, LogStage),
}

impl View for Opening {
    type V = OpeningView;

    open spec fn view(&self) -> OpeningView {
        match self {
            Opening::Run(inv) => OpeningView::Run(inv@),
            Opening::FindHelper => OpeningView::FindHelper,
            Opening::Query(inv) => OpeningView::Query(inv@),
            Opening::AskVersions => OpeningView::AskVersions,
            Opening::ShowThenAsk(inv, stage) => OpeningView::ShowThenAsk(inv@, *stage),
        }
    }
}

/// What each action starts with: the two plain updates run their one
/// program; the others first look, query or ask, and the log clearing shows
/// the journal's disk usage before its first question.
pub open spec fn opening_of(action: Action) -> OpeningView {
    match action {
        Action::UpdateAll => OpeningView::Run(call("pacman"@, seq!["-Syu"@])),
        Action::UpdateAllWithAur => OpeningView::FindHelper,
        Action::PruneOrphans => OpeningView::Query(call("pacman"@, seq!["-Qdtq"@])),
        Action::CheckPacdiffs => OpeningView::Run(call("pacdiff"@, Seq::empty())),
        Action::ClearCache => OpeningView::AskVersions,
        Action::ClearLogs => OpeningView::ShowThenAsk(
            call("journalctl"@, seq!["--disk-usage"@]),
            LogStage::Confirm,
        ),
    }
}

/// The characters that select an action.
pub open spec fn is_selector(c: char) -> bool {
    '1' <= c <= '6'
}

/// The action that `c` selects, if any.
pub open spec fn action_of(c: char) -> Option<Action> {
    if c == '1' {
        Some(Action::UpdateAll)
    } else if c == '2' {
        Some(Action::UpdateAllWithAur)
    } else if c == '3' {
        Some(Action::PruneOrphans)
    } else if c == '4' {
        Some(Action::CheckPacdiffs)
    } else if c == '5' {
        Some(Action::ClearCache)
    } else if c == '6' {
        Some(Action::ClearLogs)
    } else {
        None
    }
}

/// What `c` leads to: its action, or the report that it selects none.
pub open spec fn choice_of(c: char) -> Choice {
    match action_of(c) {
        Some(action) => Choice::Run(action),
        None => Choice::Invalid(c),
    }
}

/// What a menu line leads to: one choice for each character of the line,
/// in the line's order. The line ending is no character of the line; white
/// space is.
pub open spec fn plan(line: Seq<char>) -> Seq<Choice> {
    without_line_ending(line).map_values(|c: char| choice_of(c))
}

/// The character that a choice reports as selecting nothing, if it is
/// such a report.
pub open spec fn report_of(choice: Choice) -> Option<char> {
    match choice {
        Choice::Invalid(c) => Some(c),
        Choice::Run(_) => None,
    }
}

/// The action that a choice runs, if it runs one.
pub open spec fn run_of(choice: Choice) -> Option<Action> {
    match choice {
        Choice::Run(action) => Some(action),
        Choice::Invalid(_) => None,
    }
}

/// The characters that `choices` report, in order.
pub open spec fn reports(choices: Seq<Choice>) -> Seq<char> {
    choices.filter_map(|choice: Choice| report_of(choice))
}

/// The actions that `choices` run, in order.
pub open spec fn actions(choices: Seq<Choice>) -> Seq<Action> {
    choices.filter_map(|choice: Choice| run_of(choice))
}

/// Decides what one character of the menu line leads to.
pub fn select(c: char) -> (choice: Choice)
    ensures
        choice == choice_of(c),
{
    if c == '1' {
        Choice::Run(Action::UpdateAll)
    } else if c == '2' {
        Choice::Run(Action::UpdateAllWithAur)
    } else if c == '3' {
        Choice::Run(Action::PruneOrphans)
    } else if c == '4' {
        Choice::Run(Action::CheckPacdiffs)
    } else if c == '5' {
        Choice::Run(Action::ClearCache)
    } else if c == '6' {
        Choice::Run(Action::ClearLogs)
    } else {
        Choice::Invalid(c)
    }
}

/// Decides what `action` starts with.
pub fn opening(action: Action) -> (first: Opening)
    ensures
        first@ == opening_of(action),
{
    match action {
        Action::UpdateAll => Opening::Run(full_update()),
        Action::UpdateAllWithAur => Opening::FindHelper,
        Action::PruneOrphans => Opening::Query(orphan_query()),
        Action::CheckPacdiffs => Opening::Run(pacdiff_check()),
        Action::ClearCache => Opening::AskVersions,
        Action::ClearLogs => Opening::ShowThenAsk(journal_usage(), LogStage::Confirm),
    }
}

/// Reads a menu line: the line ending is dropped, and every character of
/// the line is decided by itself, from left to right.
pub fn parse_choices(line: &str) -> (choices: Vec<Choice>)
    ensures
        choices@ == plan(line@),
{
    let v = chars_of(strip_line_ending(line));
    let mut choices: Vec<Choice> = Vec::new();
    let mut i: usize = 0;
    while i < v.len()
        invariant
            i <= v@.len(),
            v@ == without_line_ending(line@),
            choices@.len() == i,
            forall|j: int| 0 <= j < i ==> choices@[j] == choice_of(v@[j]),
        decreases v@.len() - i,
    {
        choices.push(select(v[i]));
        i += 1;
    }
    assert(choices@ =~= plan(line@));
    choices
}

/// Exactly the characters `1` to `6` select an action.
pub proof fn lemma_selectors(c: char)
    ensures
        action_of(c) is Some <==> is_selector(c),
        choice_of(c) is Invalid <==> !is_selector(c),
        !is_selector(c) ==> choice_of(c) == Choice::Invalid(c),
{
}

/// Every character of the line is answered once, at its own place: a
/// character that selects nothing by a report that names it, and the
/// characters after it are still answered.
pub proof fn lemma_each_character_answered(line: Seq<char>, i: int)
    requires
        0 <= i < without_line_ending(line).len(),
    ensures
        plan(line).len() == without_line_ending(line).len(),
        plan(line)[i] == choice_of(without_line_ending(line)[i]),
        !is_selector(without_line_ending(line)[i]) ==> plan(line)[i] == Choice::Invalid(
            without_line_ending(line)[i],
        ),
        is_selector(without_line_ending(line)[i]) ==> plan(line)[i] is Run,
{
}

/// A line that does not end in a line feed is decided character by
/// character as it stands.
pub proof fn lemma_plan_of_plain_line(line: Seq<char>)
    requires
        line.len() > 0 ==> line.last() != '\n',
    ensures
        plan(line) == line.map_values(|c: char| choice_of(c)),
{
    lemma_no_line_ending(line);
}

/// A line of one character that selects no action leads to one report, of
/// that character, whether the line has its ending or not. White space is
/// reported like any other character. The line feed is left out: by
/// itself it is an empty line with its ending.
pub proof fn lemma_single_invalid_character(c: char)
    requires
        !is_selector(c),
        c != '\n',
    ensures
        plan(seq![c]) == seq![Choice::Invalid(c)],
        c != '\r' ==> plan(seq![c, '\n']) == seq![Choice::Invalid(c)],
        plan(seq![c, '\r', '\n']) == seq![Choice::Invalid(c)],
{
    let s = seq![c];
    assert(s.last() == c);
    assert(plan(s) =~= seq![Choice::Invalid(c)]);
    let t = seq![c, '\n'];
    assert(t.last() == '\n');
    assert(t.drop_last() =~= s);
    if c != '\r' {
        assert(plan(t) =~= seq![Choice::Invalid(c)]);
    }
    let u = seq![c, '\r', '\n'];
    assert(u.last() == '\n');
    assert(u.drop_last() =~= seq![c, '\r']);
    assert(seq![c, '\r'].last() == '\r');
    assert(seq![c, '\r'].drop_last() =~= s);
    assert(plan(u) =~= seq![Choice::Invalid(c)]);
}

/// A line that holds nothing but its ending selects nothing and reports
/// nothing.
pub proof fn lemma_empty_line(line: Seq<char>)
    requires
        line == Seq::<char>::empty() || line == seq!['\n'] || line == seq!['\r', '\n'],
    ensures
        plan(line) == Seq::<Choice>::empty(),
{
    if line.len() > 0 {
        assert(line.last() == '\n');
        if line.len() == 1 {
            assert(line.drop_last() =~= Seq::<char>::empty());
        } else {
            assert(line.drop_last() =~= seq!['\r']);
            assert(seq!['\r'].drop_last() =~= Seq::<char>::empty());
        }
    }
    assert(plan(line) =~= Seq::<Choice>::empty());
}

proof fn lemma_reports_of_choices(s: Seq<char>)
    ensures
        reports(s.map_values(|c: char| choice_of(c))) == s.filter(|c: char| !is_selector(c)),
    decreases s.len(),
{
    reveal(Seq::filter);
    let choices = s.map_values(|c: char| choice_of(c));
    if s.len() > 0 {
        lemma_reports_of_choices(s.drop_last());
        assert(choices.drop_last() =~= s.drop_last().map_values(|c: char| choice_of(c)));
        lemma_selectors(s.last());
        assert(reports(choices) =~= s.filter(|c: char| !is_selector(c)));
    } else {
        assert(reports(choices) =~= s.filter(|c: char| !is_selector(c)));
    }
}

proof fn lemma_actions_of_choices(s: Seq<char>)
    ensures
        actions(s.map_values(|c: char| choice_of(c))) == s.filter_map(|c: char| action_of(c)),
    decreases s.len(),
{
    let choices = s.map_values(|c: char| choice_of(c));
    if s.len() > 0 {
        lemma_actions_of_choices(s.drop_last());
        assert(choices.drop_last() =~= s.drop_last().map_values(|c: char| choice_of(c)));
        assert(actions(choices) =~= s.filter_map(|c: char| action_of(c)));
    } else {
        assert(actions(choices) =~= s.filter_map(|c: char| action_of(c)));
    }
}

/// The reports that a line leads to are the characters of the line that
/// select nothing: one report for each of them, in the line's order.
pub proof fn lemma_one_report_per_invalid_character(line: Seq<char>)
    ensures
        reports(plan(line)) == without_line_ending(line).filter(|c: char| !is_selector(c)),
{
    lemma_reports_of_choices(without_line_ending(line));
}

/// The actions that a line leads to are those that the characters of the
/// line select: one run for each selecting character, in the line's order,
/// whatever stands between them.
pub proof fn lemma_one_run_per_selector(line: Seq<char>)
    ensures
        actions(plan(line)) == without_line_ending(line).filter_map(|c: char| action_of(c)),
{
    lemma_actions_of_choices(without_line_ending(line));
}

} // verus!
