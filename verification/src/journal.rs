//! The journal on disk: without a console, it is all that a tester can send along with a
//! bug report.

use crate::command::Command;
use crate::text::join;
use crate::turn::text_result;
use vstd::prelude::*;

verus! {

/// The file name of the journal.
pub const LOG_FILE: &'static str = "kosp-injection.log";

pub const NO_JOURNAL: &'static str = "Aucun journal n'a encore ete ecrit.";

pub const NOT_OPENED: &'static str = "ouverture du journal impossible : ";

/// What is done about showing the journal.
pub open spec fn journal_answer(exists: bool) -> Result<Command, Seq<char>> {
    if exists {
        Ok(Command::ShowFile)
    } else {
        Err(NO_JOURNAL@)
    }
}

/// What is said once the command was started, or could not be.
pub open spec fn opened_answer(started: Result<(), Seq<char>>) -> Result<(), Seq<char>> {
    match started {
        Ok(t) => Ok(t),
        Err(e) => Err(NOT_OPENED@ + e),
    }
}

/// A journal is shown exactly where there is one; where it cannot be shown, the reason is given
/// to the letter.
pub proof fn law_the_journal_is_shown_or_the_reason_given(e: Seq<char>)
    ensures
        journal_answer(true) == Ok::<Command, Seq<char>>(Command::ShowFile),
        journal_answer(false) == Err::<Command, Seq<char>>("Aucun journal n'a encore ete ecrit."@),
        opened_answer(Ok(())) is Ok,
        opened_answer(Err(e)) == Err::<(), Seq<char>>("ouverture du journal impossible : "@ + e),
{
}

/// The command that shows the journal, where there is one to show.
pub fn open_log(exists: bool) -> (r: Result<Command, String>)
    ensures
        text_result(r) == (if exists {
            Ok::<Command, Seq<char>>(Command::ShowFile)
        } else {
            Err(NO_JOURNAL@)
        }),
        text_result(r) == journal_answer(exists),
{
    if exists {
        Ok(Command::ShowFile)
    } else {
        Err(NO_JOURNAL.to_string())
    }
}

/// What is said of that command once it was started, or could not be. How it ends makes no
/// difference.
pub fn log_opened(started: Result<(), String>) -> (r: Result<(), String>)
    ensures
        text_result(r) == (match started {
            Ok(t) => Ok::<(), Seq<char>>(t),
            Err(e) => Err(NOT_OPENED@ + e@),
        }),
        text_result(r) == opened_answer(text_result(started)),
{
    match started {
        Ok(t) => Ok(t),
        Err(e) => {
            let text: String = join(NOT_OPENED, e.as_str(), "");
            proof {
                reveal_strlit("");
                assert(text@ =~= NOT_OPENED@ + e@);
            }
            Err(text)
        },
    }
}

} // verus!
