//! Terminal session options and the event loop's continue/stop signal.

use vstd::prelude::*;

verus! {

/// Options for entering the terminal session.
#[derive(Debug, Clone, Copy, PartialEq, Eq, Structural)]
pub struct RuntimeOptions {
    pub bracketed_paste: bool,
}

impl Default for RuntimeOptions {
    fn default() -> (o: RuntimeOptions)
        ensures
            !o.bracketed_paste,
    {
        RuntimeOptions { bracketed_paste: false }
    }
}

/// Whether the event loop goes on.
#[derive(Debug, Clone, Copy, PartialEq, Eq, Structural)]
pub enum LoopControl {
    Continue,
    Break,
}

/// The loop stops exactly when a handler asked to quit.
pub fn loop_control_for(quit: bool) -> (c: LoopControl)
    ensures
        c == (if quit {
            LoopControl::Break
        } else {
            LoopControl::Continue
        }),
{
    if quit {
        LoopControl::Break
    } else {
        LoopControl::Continue
    }
}

/// Status of one download.
#[derive(Debug, Clone)]
pub enum DownloadStatus {
    Downloading,
    Done,
    Error(String),
}

} // verus!
