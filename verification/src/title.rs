//! Text shown beside the tray icon.

use vstd::prelude::*;
use vstd::string::*;

verus! {

/// What the tray reads while no timer is running.
pub const DEFAULT_TITLE: &'static str = "TimeGrid";

/// The tray title for an elapsed time and a project name.
///
/// With both present the title holds both; with only the elapsed time it
/// holds that; without an elapsed time it is the default, whatever the
/// project: a project is never shown alone.
pub open spec fn title_text(elapsed: Seq<char>, project: Seq<char>) -> Seq<char> {
    if elapsed.len() > 0 && project.len() > 0 {
        "⏱ "@ + elapsed + " • "@ + project
    } else if elapsed.len() > 0 {
        "⏱ "@ + elapsed
    } else {
        "TimeGrid"@
    }
}

/// Builds the tray title for `elapsed` and `project`.
pub fn format_title(elapsed: &str, project: &str) -> (title: String)
    ensures
        title@ == title_text(elapsed@, project@),
{
    if elapsed.is_empty() {
        String::from_str(DEFAULT_TITLE)
    } else {
        let mut title = String::from_str("⏱ ");
        title.append(elapsed);
        if !project.is_empty() {
            title.append(" • ");
            title.append(project);
        }
        title
    }
}

/// The three shapes of the title: elapsed time and project, elapsed time
/// alone, and the default whenever there is no elapsed time.
pub proof fn lemma_title_cases(elapsed: Seq<char>, project: Seq<char>)
    ensures
        elapsed.len() > 0 && project.len() > 0 ==> title_text(elapsed, project) == "⏱ "@ + elapsed
            + " • "@ + project,
        elapsed.len() > 0 ==> title_text(elapsed, Seq::empty()) == "⏱ "@ + elapsed,
        title_text(Seq::empty(), Seq::empty()) == "TimeGrid"@,
        title_text(Seq::empty(), project) == "TimeGrid"@,
{
}

/// Decides what a title update does: the new title where the tray icon
/// exists, nothing where it does not.
pub fn update_tray_title(tray_present: bool, elapsed: &str, project: &str) -> (update: Option<String>)
    ensures
        update is Some <==> tray_present,
        tray_present ==> update->Some_0@ == title_text(elapsed@, project@),
{
    if tray_present {
        Some(format_title(elapsed, project))
    } else {
        None
    }
}

/// What a title update answers once the platform has been asked, if it
/// was: a missing tray icon is no failure, and a failure of the platform
/// is passed on with its message unchanged.
pub open spec fn update_answer(applied: Option<Result<(), String>>) -> Result<(), String> {
    match applied {
        Some(Err(message)) => Err(message),
        _ => Ok(()),
    }
}

/// Turns the platform's answer to a title update into the answer for the
/// front-end. `None` stands for an update that was skipped because there
/// is no tray icon.
pub fn title_update_outcome(applied: Option<Result<(), String>>) -> (answer: Result<(), String>)
    ensures
        answer == update_answer(applied),
{
    match applied {
        Some(Err(message)) => Err(message),
        _ => Ok(()),
    }
}

} // verus!
