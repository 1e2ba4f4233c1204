//! What every game records, how a recording's file is named, and what is
//! reported when a game with a recording ends or when a recording comes from
//! another engine build.
use vstd::prelude::*;
use crate::hud::Verdict;
use crate::text::{decimal, decimal_text, str_eq};

verus! {

broadcast use vstd::string::group_string_axioms;

/// How a game is identified in its recording: a scenario game by its name —
/// the scenario defines the rest — and a skirmish, which has no name of its
/// own, by its definition embedded whole.
#[derive(Clone, Copy, Debug, PartialEq, Eq, Structural)]
pub enum RecordAs {
    ScenarioByName,
    SkirmishWhole,
}

/// How the game just entered is recorded. Exactly one definition describes a
/// game; recording is the crash-safety net, so a game its entry path
/// described ambiguously or not at all cannot be recorded faithfully and must
/// not start — such a game is outside this function's inputs.
pub fn record_as(has_scenario: bool, has_skirmish: bool) -> (kind: RecordAs)
    requires
        has_scenario != has_skirmish,
    ensures
        kind == if has_scenario {
            RecordAs::ScenarioByName
        } else {
            RecordAs::SkirmishWhole
        },
{
    if has_scenario {
        RecordAs::ScenarioByName
    } else {
        RecordAs::SkirmishWhole
    }
}

/// The note added to the saved-replay report when a game ends: where a
/// desynchronization struck, or that the game was aborted; nothing otherwise.
pub open spec fn teardown_text(result: Option<Verdict>) -> Seq<char> {
    match result {
        Some(Verdict::Desynchronization { tick }) => " (desync at tick "@ + decimal_text(
            tick as nat,
        ) + ")"@,
        Some(Verdict::Aborted) => " (aborted)"@,
        _ => Seq::empty(),
    }
}

/// The note the saved-replay report carries for the game's result.
pub fn teardown_note(result: Option<Verdict>) -> (note: String)
    ensures
        note@ == teardown_text(result),
{
    match result {
        Some(Verdict::Desynchronization { tick }) => {
            let mut note = String::from_str(" (desync at tick ");
            let t = decimal(tick);
            note.append(t.as_str());
            note.append(")");
            note
        },
        Some(Verdict::Aborted) => String::from_str(" (aborted)"),
        _ => String::new(),
    }
}

/// The extension replays are saved under and filtered by.
pub const REPLAY_EXTENSION: &'static str = "frep";

/// A replay's file name: the time it was started, in milliseconds since the
/// epoch, and the replay extension.
pub open spec fn replay_file_text(stamp: u64) -> Seq<char> {
    decimal_text(stamp as nat) + ".frep"@
}

/// The file name a recording started at `stamp` milliseconds is saved under.
pub fn replay_file_name(stamp: u64) -> (name: String)
    ensures
        name@ == replay_file_text(stamp),
{
    let mut name = decimal(stamp);
    name.append(".frep");
    name
}

/// The warning a recording from another engine build gets: it may not replay
/// faithfully. `None` when the builds match.
pub open spec fn version_warning_text(recorded: Seq<char>, current: Seq<char>) -> Option<Seq<char>> {
    if recorded == current {
        None
    } else {
        Some(
            "warning: replay recorded by engine "@ + recorded + " but this build is "@ + current
                + "; it may not replay faithfully"@,
        )
    }
}

/// Warns when a recording was made by another engine build than this one.
pub fn version_warning(recorded: &str, current: &str) -> (warning: Option<String>)
    ensures
        match version_warning_text(recorded@, current@) {
            None => warning is None,
            Some(text) => warning matches Some(w) && w@ == text,
        },
{
    if str_eq(recorded, current) {
        None
    } else {
        let mut text = String::from_str("warning: replay recorded by engine ");
        text.append(recorded);
        text.append(" but this build is ");
        text.append(current);
        text.append("; it may not replay faithfully");
        Some(text)
    }
}

/// How a headless replay run ended: diverged at a tick, played to its end, or
/// stopped short of it.
#[derive(Clone, Copy, Debug, PartialEq, Eq, Structural)]
pub enum RunVerdict {
    /// The replayed simulation diverged from the recording at this tick.
    Diverged { at: u32 },
    /// Every recorded checksum was verified to the end.
    Verified,
    /// Playback stopped before reaching the end.
    Incomplete,
}

/// Judges a headless replay run from what playback reported: a checksum
/// mismatch is a divergence whether or not playback went on; otherwise the
/// run verified the recording only if it reached the end.
pub fn judge_run(mismatch: Option<u32>, done: bool) -> (verdict: RunVerdict)
    ensures
        verdict == match mismatch {
            Some(at) => RunVerdict::Diverged { at },
            None => if done {
                RunVerdict::Verified
            } else {
                RunVerdict::Incomplete
            },
        },
{
    match mismatch {
        Some(at) => RunVerdict::Diverged { at },
        None => if done {
            RunVerdict::Verified
        } else {
            RunVerdict::Incomplete
        },
    }
}

} // verus!
