//! The keyboard shortcut reference and where its overlay stands.

use vstd::prelude::*;

verus! {

/// The shortcut reference shown by the help overlay.
pub const KEYBOARD_HELP_TEXT: &'static str = "\
Global
  F1 / ?           This help (when not typing in a field)
  /                Server-wide ROM search overlay (toggle)
  d                Downloads overlay (toggle; disabled while typing in a field)
  ,                Settings overlay (toggle; disabled while typing in a field)
  Ctrl+r           Rescan library on server (waits until done; refreshes games list)
  q / Ctrl+c       Quit

Library (consoles / games)
  Up / k, Down / j   Move in list or game rows
  Left / h           Back to console list (games view)
  Right / l, Tab     Switch panel or view
  Enter              Open games list or game detail
  t                  Switch consoles / collections
  Ctrl+u             Upload ROM (Consoles list; path browser; Ctrl+s: rescan after upload)
  Ctrl+Left/Right    Resize console/games split
  Esc                Quit from list view; back from games view

Search overlay
  Arrows, typing     Edit query and move in results
  Enter              Run search; open game only if the query matches the last search
  Esc                Clear results or close overlay
  /                  Close overlay

Game detail
  Enter              Download
  o                  Open cover image
  m                  Toggle technical details
  Ctrl+Left/Right    Resize cover panel
  Esc                Back
  q                  Quit

Downloads overlay
  Esc / d            Close

Settings overlay
  Tab / Shift+Tab,
  Left / h, Right / l Switch tab
  Up / k, Down / j   Move
  Enter              Edit/toggle selected setting, open pickers, or open auth wizard
  s                  Save config to disk
  Esc                Close overlay (prompts if unsaved)
  ,                  Close overlay
  q                  Quit

Setup wizard
  Follow on-screen prompts; Esc returns when offered.

Press Esc, Enter, F1, or ? to close this help.
";

/// Where the help overlay stands in a `width` × `height` area: four fifths of each side, at
/// least 40 × 15, at most the area, centred.
pub open spec fn spec_help_popup(width: u16, height: u16) -> (int, int, int, int) {
    let w0 = width * 4 / 5;
    let w1 = if w0 > 40 {
        w0
    } else {
        40
    };
    let w = if w1 < width {
        w1
    } else {
        width as int
    };
    let h0 = height * 4 / 5;
    let h1 = if h0 > 15 {
        h0
    } else {
        15
    };
    let h = if h1 < height {
        h1
    } else {
        height as int
    };
    ((width - w) / 2, (height - h) / 2, w, h)
}

/// The help overlay's rectangle (x, y, width, height).
pub fn help_popup(width: u16, height: u16) -> (r: (u16, u16, u16, u16))
    requires
        width as int * 4 <= u16::MAX,
        height as int * 4 <= u16::MAX,
    ensures
        (r.0 as int, r.1 as int, r.2 as int, r.3 as int) == spec_help_popup(width, height),
        r.0 + r.2 <= width,
        r.1 + r.3 <= height,
{
    let w0 = width * 4 / 5;
    let w1 = if w0 > 40 {
        w0
    } else {
        40
    };
    let w = if w1 < width {
        w1
    } else {
        width
    };
    let h0 = height * 4 / 5;
    let h1 = if h0 > 15 {
        h0
    } else {
        15
    };
    let h = if h1 < height {
        h1
    } else {
        height
    };
    ((width - w) / 2, (height - h) / 2, w, h)
}

} // verus!
