//! Keypress watcher logic: one raw keystroke at a time from the controlling
//! terminal, classified into the watcher's next action. The quit key requests
//! shutdown and ends the watch loop; the help key prints guidance as an
//! immediate side effect; every other key is ignored.

use vstd::prelude::*;
use vstd::string::StringExecFns;

use crate::event::{Event, EventView};

verus! {

/// The key that requests shutdown: the byte of `q`.
pub const QUIT_KEY: u8 = 113;

/// The key that asks for usage guidance: the byte of `?`.
pub const HELP_KEY: u8 = 63;

/// What the watcher's thread must do after reading one keystroke.
#[derive(Debug, Clone, PartialEq)]
pub enum KeyAction {
    /// Emit this `ShutdownRequested` event, then end the watch loop.
    RequestShutdown { event: Event },
    /// Print the usage guidance, then keep watching.
    ShowHelp,
    /// Keep watching.
    Ignore,
}

/// Mathematical model of a [`KeyAction`].
pub enum KeyActionView {
    RequestShutdown { event: EventView },
    ShowHelp,
    Ignore,
}

impl View for KeyAction {
    type V = KeyActionView;

    open spec fn view(&self) -> KeyActionView {
        match self {
            KeyAction::RequestShutdown { event } => KeyActionView::RequestShutdown {
                event: event@,
            },
            KeyAction::ShowHelp => KeyActionView::ShowHelp,
            KeyAction::Ignore => KeyActionView::Ignore,
        }
    }
}

/// The action owed after one keystroke.
pub open spec fn spec_classify_key(key: u8, at: u64) -> KeyActionView {
    if key == QUIT_KEY {
        KeyActionView::RequestShutdown { event: EventView::ShutdownRequested { at } }
    } else if key == HELP_KEY {
        KeyActionView::ShowHelp
    } else {
        KeyActionView::Ignore
    }
}

/// Classify one keystroke read from the terminal in raw mode.
pub fn classify_key(key: u8, at: u64) -> (action: KeyAction)
    ensures
        action@ == spec_classify_key(key, at),
{
    if key == QUIT_KEY {
        KeyAction::RequestShutdown { event: Event::ShutdownRequested { at } }
    } else if key == HELP_KEY {
        KeyAction::ShowHelp
    } else {
        KeyAction::Ignore
    }
}

/// The usage guidance printed on the help key.
pub fn help_text() -> (text: String)
    ensures
        text@ == "Press 'q' to quit"@,
{
    String::from_str("Press 'q' to quit")
}

/// The events the watcher emits over a whole run of keystrokes: keys are
/// taken in order, and the first quit key emits the one shutdown event and
/// ends the run.
pub open spec fn watcher_emits(keys: Seq<u8>, at: u64) -> Seq<EventView>
    decreases keys.len(),
{
    if keys.len() == 0 {
        Seq::empty()
    } else {
        match spec_classify_key(keys[0], at) {
            KeyActionView::RequestShutdown { event } => seq![event],
            KeyActionView::ShowHelp => watcher_emits(keys.skip(1), at),
            KeyActionView::Ignore => watcher_emits(keys.skip(1), at),
        }
    }
}

/// The watcher emits nothing but shutdown requests: at most one event over
/// any run of keystrokes, exactly one — a `ShutdownRequested` — as soon as
/// the run contains the quit key.
pub proof fn lemma_quit_ends_watch(keys: Seq<u8>, at: u64)
    ensures
        watcher_emits(keys, at).len() <= 1,
        watcher_emits(keys, at).len() == 1 <==> (exists|i: int|
            0 <= i < keys.len() && keys[i] == QUIT_KEY),
        watcher_emits(keys, at).len() == 1 ==> watcher_emits(keys, at) =~= seq![
            EventView::ShutdownRequested { at },
        ],
    decreases keys.len(),
{
    if keys.len() == 0 {
    } else if keys[0] == QUIT_KEY {
    } else {
        lemma_quit_ends_watch(keys.skip(1), at);
        if exists|i: int| 0 <= i < keys.skip(1).len() && keys.skip(1)[i] == QUIT_KEY {
            let i = choose|i: int| 0 <= i < keys.skip(1).len() && keys.skip(1)[i] == QUIT_KEY;
            assert(keys[i + 1] == QUIT_KEY);
        }
        if exists|i: int| 0 <= i < keys.len() && keys[i] == QUIT_KEY {
            let i = choose|i: int| 0 <= i < keys.len() && keys[i] == QUIT_KEY;
            assert(keys.skip(1)[i - 1] == QUIT_KEY);
        }
    }
}

} // verus!
