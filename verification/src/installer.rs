//! What the installer of the hooks decides: whether a hook that is already
//! there is the dispatcher, what the dispatcher's script is, and what the
//! user answered.

use vstd::prelude::*;
use vstd::string::*;
use crate::text::{chars_of, same_text, starts_with};

verus! {

/// The first line of every dispatcher script.
pub open spec fn dispatch_marker() -> Seq<char> {
    "#HOOK_DISPATCH"@
}

/// Whether a hook with the contents `contents` is the dispatcher: whether it
/// begins with the marker and an end of line.
pub open spec fn is_dispatcher_text(contents: Seq<char>) -> bool {
    &&& dispatch_marker().is_prefix_of(contents)
    &&& contents.len() > dispatch_marker().len()
    &&& (contents[dispatch_marker().len() as int] == '\r' || contents[dispatch_marker().len()
        as int] == '\n')
}

/// Checks the contents of a hook file to see if this hook is the dispatcher
/// that runs every hook of a directory.
pub fn is_hook_dispatcher(hook_contents: &str) -> (b: bool)
    ensures
        b == is_dispatcher_text(hook_contents@),
{
    let chars = chars_of(hook_contents);
    let marker = chars_of("#HOOK_DISPATCH");
    if starts_with(&chars, &marker) && chars.len() > marker.len() {
        let next = chars[marker.len()];
        next == '\r' || next == '\n'
    } else {
        false
    }
}

/// Whether the hook that is already in place has to be moved aside before
/// the dispatcher is written, given its contents where they could be read: a
/// hook that is the dispatcher already, or cannot be read, stays.
pub fn should_move_old_hook(hook_contents: Option<&str>) -> (b: bool)
    ensures
        b == (hook_contents is Some && !is_dispatcher_text(hook_contents->Some_0@)),
{
    match hook_contents {
        Some(contents) => !is_hook_dispatcher(contents),
        None => false,
    }
}

/// What to do with the hook that is in place before the dispatcher is
/// written.
#[derive(Debug, PartialEq, Eq, Clone, Copy, Structural)]
pub enum OldHookAction {
    /// The hook stays where it is, and is overwritten.
    Keep,
    /// The hook is moved into the directory of the dispatcher.
    Move,
    /// The hook would have to be moved onto a file that is there already.
    Refuse,
}

/// Decides what to do with the hook that is in place, given its contents
/// where they could be read and whether the place that it would move to is
/// taken: a hook that has to be moved is never moved onto another file.
pub fn old_hook_action(hook_contents: Option<&str>, target_exists: bool) -> (action: OldHookAction)
    ensures
        action == if !(hook_contents is Some && !is_dispatcher_text(hook_contents->Some_0@)) {
            OldHookAction::Keep
        } else if target_exists {
            OldHookAction::Refuse
        } else {
            OldHookAction::Move
        },
{
    if !should_move_old_hook(hook_contents) {
        OldHookAction::Keep
    } else if target_exists {
        OldHookAction::Refuse
    } else {
        OldHookAction::Move
    }
}

/// The name of the directory that holds the hooks that the dispatcher of
/// `hook_name` runs.
pub fn hook_directory_name(hook_name: &str) -> (name: String)
    ensures
        name@ == hook_name@ + ".d/"@,
{
    String::from_str(hook_name).concat(".d/")
}

/// The dispatcher's script for the hook `hook_name`.
pub open spec fn dispatcher_text(hook_name: Seq<char>) -> Seq<char> {
    "#HOOK_DISPATCH\nfor file in ./"@ + hook_name + ".d/*; do $file; done"@
}

/// The script that runs every hook in the directory of `hook_name`.
pub fn dispatcher_script(hook_name: &str) -> (script: String)
    ensures
        script@ == dispatcher_text(hook_name@),
{
    String::from_str("#HOOK_DISPATCH\nfor file in ./").concat(hook_name).concat(
        ".d/*; do $file; done",
    )
}

/// The script that the installer writes is a dispatcher, whatever the hook's
/// name.
pub proof fn lemma_script_is_dispatcher(hook_name: Seq<char>)
    ensures
        is_dispatcher_text(dispatcher_text(hook_name)),
{
    reveal_strlit("#HOOK_DISPATCH");
    reveal_strlit("#HOOK_DISPATCH\nfor file in ./");
    let script = dispatcher_text(hook_name);
    assert(script.subrange(0, 14) =~= dispatch_marker());
    assert(script[14] == '\n');
}

/// What a line of the user's input answers: yes, no, or nothing.
pub open spec fn answer_of(line: Seq<char>) -> Option<bool> {
    if line == "Y"@ || line == "y"@ || line == "yes"@ || line == "Yes"@ || line == "YES"@ {
        Some(true)
    } else if line == "N"@ || line == "n"@ || line == "no"@ || line == "No"@ || line == "NO"@ {
        Some(false)
    } else {
        None
    }
}

/// Reads a line of the user's input as an answer to a question.
pub fn parse_yes_or_no(line: &str) -> (answer: Option<bool>)
    ensures
        answer == answer_of(line@),
{
    if same_text(line, "Y") || same_text(line, "y") || same_text(line, "yes") || same_text(
        line,
        "Yes",
    ) || same_text(line, "YES") {
        Some(true)
    } else if same_text(line, "N") || same_text(line, "n") || same_text(line, "no") || same_text(
        line,
        "No",
    ) || same_text(line, "NO") {
        Some(false)
    } else {
        None
    }
}

} // verus!
