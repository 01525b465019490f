//! The main menu: six entries, selection wrapping at both ends.

use vstd::prelude::*;

verus! {

/// Number of main menu entries.
pub const MAIN_MENU_ITEMS: usize = 6;

/// Main menu with the selected entry.
pub struct MainMenuScreen {
    pub selected: usize,
}

impl MainMenuScreen {
    pub fn new() -> (m: MainMenuScreen)
        ensures
            m.selected == 0,
    {
        MainMenuScreen { selected: 0 }
    }

    /// Select the next entry, wrapping after the last.
    pub fn next(&mut self)
        requires
            old(self).selected < usize::MAX,
        ensures
            Self::next_post(*old(self), *final(self)),
    {
        self.selected = (self.selected + 1) % MAIN_MENU_ITEMS;
    }

    /// Select the previous entry, wrapping before the first.
    pub fn previous(&mut self)
        ensures
            Self::previous_post(*old(self), *final(self)),
    {
        self.selected = if self.selected == 0 {
            MAIN_MENU_ITEMS - 1
        } else {
            self.selected - 1
        };
    }

    /// Labels of the entries, in order.
    pub fn labels() -> (v: Vec<&'static str>)
        ensures
            v@.len() == MAIN_MENU_ITEMS,
            v@[0]@ == "Browse Games"@,
            v@[1]@ == "Search"@,
            v@[2]@ == "Downloads"@,
            v@[3]@ == "Settings"@,
            v@[4]@ == "API (Expert)"@,
            v@[5]@ == "Exit"@,
    {
        let mut v: Vec<&'static str> = Vec::new();
        v.push("Browse Games");
        v.push("Search");
        v.push("Downloads");
        v.push("Settings");
        v.push("API (Expert)");
        v.push("Exit");
        v
    }
}

impl Default for MainMenuScreen {
    fn default() -> (m: MainMenuScreen)
        ensures
            m.selected == 0,
    {
        MainMenuScreen::new()
    }
}

/// From the last entry, `next` then `previous` comes back; in general `previous` undoes
/// `next` for every selection within the menu.
pub proof fn lemma_previous_undoes_next(sel: usize)
    requires
        sel < MAIN_MENU_ITEMS,
    ensures
        ({
            let n = ((sel + 1) % (MAIN_MENU_ITEMS as int)) as usize;
            (if n == 0 {
                (MAIN_MENU_ITEMS - 1) as usize
            } else {
                (n - 1) as usize
            }) == sel
        }),
{
}

impl MainMenuScreen {
    /// What `next` leaves: `o` before, `n` after.
    pub open spec fn next_post(o: MainMenuScreen, n: MainMenuScreen) -> bool {
        &&& n.selected == (o.selected + 1) % (MAIN_MENU_ITEMS as int)
    }

    /// What `previous` leaves: `o` before, `n` after.
    pub open spec fn previous_post(o: MainMenuScreen, n: MainMenuScreen) -> bool {
        &&& n.selected == (if o.selected == 0 {
            (MAIN_MENU_ITEMS - 1) as usize
        } else {
            (o.selected - 1) as usize
        })
    }
}

} // verus!
