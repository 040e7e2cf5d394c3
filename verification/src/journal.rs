//! Clearing the journal logs: the disk usage is shown, the user confirms,
//! says how many days of logs stay, and the journal is vacuumed.

use crate::command::{bare, call, with_arg, Call, Invocation};
use crate::retention::{default_retention, retention, retention_of, u16_of};
use crate::text::{is_y, says_y, trimmed};
use vstd::prelude::*;
use vstd::string::StringExecFns;

verus! {

/// The question that a reply answers. The dialogue starts at `Confirm`,
/// after the disk usage was shown.
#[derive(Clone, Copy, Debug, PartialEq, Eq)]
pub enum LogStage {
    /// "Are you sure you would like to clear the logs?"
    Confirm,
    /// "How many days of logs would you like to keep?"
    Retention,
}

/// What follows a reply.
#[derive(Debug, PartialEq, Eq)]
pub enum LogAction {
    /// Put the question of this stage next, and come back with the reply.
    Ask(LogStage),
    /// The user did not confirm: the logs stay as they are.
    Skip,
    /// Run this, and the logs are cleared.
    Vacuum(Invocation),
    /// The retention is no number: nothing is run.
    Reject,
}

/// What a `LogAction` stands for.
pub enum LogOutcome {
    Ask(LogStage),
    Skip,
    Vacuum(Call),
    Reject,
}

impl View for LogAction {
    type V = LogOutcome;

    open spec fn view(&self) -> LogOutcome {
        match self {
            LogAction::Ask(stage) => LogOutcome::Ask(*stage),
            LogAction::Skip => LogOutcome::Skip,
            LogAction::Vacuum(inv) => LogOutcome::Vacuum(inv@),
            LogAction::Reject => LogOutcome::Reject,
        }
    }
}

/// The argument that keeps `days` days of logs.
pub open spec fn vacuum_argument(days: Seq<char>) -> Seq<char> {
    "--vacuum-time="@ + days + "d"@
}

/// What follows `reply` at `stage`. Only the reply `y`, with nothing but
/// white space around it, leads on to the second question; every other
/// reply leaves the logs alone. At the second question a blank reply keeps
/// the default, a number keeps that many days, and anything else is
/// rejected.
pub open spec fn log_outcome_of(stage: LogStage, reply: Seq<char>) -> LogOutcome {
    match stage {
        LogStage::Confirm => if is_y(reply) {
            LogOutcome::Ask(LogStage::Retention)
        } else {
            LogOutcome::Skip
        },
        LogStage::Retention => match retention_of(reply) {
            Some(days) => LogOutcome::Vacuum(call("journalctl"@, seq![vacuum_argument(days)])),
            None => LogOutcome::Reject,
        },
    }
}

/// Shows how much disk space the journal takes: `journalctl --disk-usage`.
pub fn journal_usage() -> (inv: Invocation)
    ensures
        inv@ == call("journalctl"@, seq!["--disk-usage"@]),
{
    let inv = with_arg(bare("journalctl"), "--disk-usage");
    assert(inv@.args =~= seq!["--disk-usage"@]);
    inv
}

/// Decides what follows the user's reply to the question of `stage`.
pub fn clear_sysdlogs(stage: LogStage, reply: &str) -> (action: LogAction)
    ensures
        action@ == log_outcome_of(stage, reply@),
{
    match stage {
        LogStage::Confirm => {
            if says_y(reply) {
                LogAction::Ask(LogStage::Retention)
            } else {
                LogAction::Skip
            }
        },
        LogStage::Retention => {
            match retention(reply) {
                Some(days) => {
                    let mut arg = "--vacuum-time=".to_owned();
                    arg.append(days);
                    arg.append("d");
                    let inv = with_arg(bare("journalctl"), arg.as_str());
                    assert(inv@.args =~= seq![vacuum_argument(days@)]);
                    LogAction::Vacuum(inv)
                },
                None => LogAction::Reject,
            }
        },
    }
}

/// A reply that is not `y` once trimmed leaves the logs alone: nothing is
/// asked further and nothing is run. The reply `y` leads to the second
/// question. Neither runs anything yet.
pub proof fn lemma_only_y_goes_on(reply: Seq<char>)
    ensures
        trimmed(reply) != seq!['y'] ==> log_outcome_of(LogStage::Confirm, reply)
            == LogOutcome::Skip,
        trimmed(reply) == seq!['y'] ==> log_outcome_of(LogStage::Confirm, reply)
            == LogOutcome::Ask(LogStage::Retention),
        !(log_outcome_of(LogStage::Confirm, reply) is Vacuum),
{
}

/// A reply that holds a `y` among other letters, or a capital `Y`, or
/// nothing at all, is no `y`: the logs stay.
pub proof fn lemma_longer_replies_skip(reply: Seq<char>)
    requires
        trimmed(reply).len() != 1 || trimmed(reply)[0] != 'y',
    ensures
        log_outcome_of(LogStage::Confirm, reply) == LogOutcome::Skip,
{
    if trimmed(reply) == seq!['y'] {
        assert(seq!['y'].len() == 1 && seq!['y'][0] == 'y');
    }
}

/// The second question is the last: whatever is replied to it, the logs
/// are vacuumed or the reply is rejected, and nothing more is asked.
pub proof fn lemma_retention_is_last(reply: Seq<char>)
    ensures
        log_outcome_of(LogStage::Retention, reply) is Vacuum || log_outcome_of(
            LogStage::Retention,
            reply,
        ) is Reject,
{
}

/// A blank reply to the second question keeps the default of three days.
pub proof fn lemma_blank_reply_keeps_default(reply: Seq<char>)
    requires
        trimmed(reply).len() == 0,
    ensures
        log_outcome_of(LogStage::Retention, reply) == LogOutcome::Vacuum(
            call("journalctl"@, seq!["--vacuum-time=3d"@]),
        ),
{
    reveal_strlit("--vacuum-time=");
    reveal_strlit("d");
    reveal_strlit("--vacuum-time=3d");
    assert(vacuum_argument(default_retention()) =~= "--vacuum-time=3d"@);
}

/// A reply that is a 16-bit numeral keeps that many days: the numeral
/// stands in the argument as it was typed, without the white space around
/// it.
pub proof fn lemma_number_is_kept(reply: Seq<char>)
    requires
        u16_of(trimmed(reply)) is Some,
    ensures
        log_outcome_of(LogStage::Retention, reply) == LogOutcome::Vacuum(
            call("journalctl"@, seq!["--vacuum-time="@ + trimmed(reply) + "d"@]),
        ),
{
}

/// Any other reply to the second question runs nothing.
pub proof fn lemma_other_reply_is_rejected(reply: Seq<char>)
    requires
        trimmed(reply).len() > 0,
        u16_of(trimmed(reply)) is None,
    ensures
        log_outcome_of(LogStage::Retention, reply) == LogOutcome::Reject,
{
}

} // verus!
