//! The first-run setup, as a state machine over the answers the user types.
//!
//! The setup itself is a terminal dialogue — asking whether the tool may
//! create its configuration directory, and whether the default paths are
//! wanted — so the prompting and reading stay in the surrounding binary.
//! The library holds the decisions: which state each answer leads to, and
//! which effect (creating the directory, adopting a custom path) it asks
//! for. The binary loops: print the prompt of the current state, read a
//! line, step, carry out the effect.

use vstd::prelude::*;
use vstd::string::*;

verus! {

/// Where the setup dialogue stands.
#[derive(Clone, Copy, PartialEq, Eq, Structural, Debug)]
pub enum InitState {
    /// Waiting for leave to create the per-user configuration directory.
    AwaitingCreateConfirmation,
    /// Waiting to hear whether the default paths are wanted.
    AwaitingPathChoice,
    /// Waiting for the custom bar-directory path itself.
    AwaitingCustomPath,
    /// The dialogue finished; the record can be written.
    Done,
    /// Leave to create the configuration directory was denied.
    Refused,
}

/// What a step of the dialogue asks the surrounding binary to do.
#[derive(Debug)]
pub enum InitEffect {
    /// Create the per-user configuration directory now.
    CreateConfigDir,
    /// Adopt this value as the bar application's directory.
    UseCustomPath(String),
    /// The answer was neither yes nor no; say so and ask again.
    ReportInvalid,
    /// Nothing to carry out.
    NoEffect,
}

/// One step of the dialogue: the state it leads to and the effect it asks
/// for.
pub struct InitStep {
    pub state: InitState,
    pub effect: InitEffect,
}

/// An affirmative answer: the letter y, in either case.
pub open spec fn is_yes(line: Seq<char>) -> bool {
    line.len() == 1 && (line[0] == 'y' || line[0] == 'Y')
}

/// A negative answer: the letter n, in either case.
pub open spec fn is_no(line: Seq<char>) -> bool {
    line.len() == 1 && (line[0] == 'n' || line[0] == 'N')
}

fn is_yes_line(line: &String) -> (r: bool)
    ensures
        r == is_yes(line@),
{
    let s = line.as_str();
    s.unicode_len() == 1 && {
        let c = s.get_char(0);
        c == 'y' || c == 'Y'
    }
}

fn is_no_line(line: &String) -> (r: bool)
    ensures
        r == is_no(line@),
{
    let s = line.as_str();
    s.unicode_len() == 1 && {
        let c = s.get_char(0);
        c == 'n' || c == 'N'
    }
}

/// Where the dialogue begins: with the request to create the configuration
/// directory when it does not exist yet, otherwise straight at the choice of
/// paths.
pub fn init_start(dir_exists: bool) -> (r: InitState)
    ensures
        !dir_exists ==> r is AwaitingCreateConfirmation,
        dir_exists ==> r is AwaitingPathChoice,
{
    if !dir_exists {
        InitState::AwaitingCreateConfirmation
    } else {
        InitState::AwaitingPathChoice
    }
}

/// One answer of the dialogue. Yes and no are the single letter in either
/// case; anything else leaves the state where it is and asks again. Once a
/// custom path is awaited, the next line is taken whole. The two terminal
/// states stay put.
pub fn init_step(state: &InitState, line: &String) -> (r: InitStep)
    ensures
        state is AwaitingCreateConfirmation && is_yes(line@) ==> r.state is AwaitingPathChoice
            && r.effect is CreateConfigDir,
        state is AwaitingCreateConfirmation && is_no(line@) ==> r.state is Refused
            && r.effect is NoEffect,
        state is AwaitingCreateConfirmation && !is_yes(line@) && !is_no(line@)
            ==> r.state is AwaitingCreateConfirmation && r.effect is ReportInvalid,
        state is AwaitingPathChoice && is_yes(line@) ==> r.state is Done && r.effect is NoEffect,
        state is AwaitingPathChoice && is_no(line@) ==> r.state is AwaitingCustomPath
            && r.effect is NoEffect,
        state is AwaitingPathChoice && !is_yes(line@) && !is_no(line@)
            ==> r.state is AwaitingPathChoice && r.effect is ReportInvalid,
        state is AwaitingCustomPath ==> r.state is Done && (r.effect matches
        InitEffect::UseCustomPath(p) && p == *line),
        state is Done ==> r.state is Done && r.effect is NoEffect,
        state is Refused ==> r.state is Refused && r.effect is NoEffect,
{
    match state {
        InitState::AwaitingCreateConfirmation => {
            if is_yes_line(line) {
                InitStep { state: InitState::AwaitingPathChoice, effect: InitEffect::CreateConfigDir }
            } else if is_no_line(line) {
                InitStep { state: InitState::Refused, effect: InitEffect::NoEffect }
            } else {
                InitStep {
                    state: InitState::AwaitingCreateConfirmation,
                    effect: InitEffect::ReportInvalid,
                }
            }
        },
        InitState::AwaitingPathChoice => {
            if is_yes_line(line) {
                InitStep { state: InitState::Done, effect: InitEffect::NoEffect }
            } else if is_no_line(line) {
                InitStep { state: InitState::AwaitingCustomPath, effect: InitEffect::NoEffect }
            } else {
                InitStep { state: InitState::AwaitingPathChoice, effect: InitEffect::ReportInvalid }
            }
        },
        InitState::AwaitingCustomPath => InitStep {
            state: InitState::Done,
            effect: InitEffect::UseCustomPath(line.clone()),
        },
        InitState::Done => InitStep { state: InitState::Done, effect: InitEffect::NoEffect },
        InitState::Refused => InitStep { state: InitState::Refused, effect: InitEffect::NoEffect },
    }
}

} // verus!
