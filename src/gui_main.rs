use vstd::prelude::*;

verus! {

/// The screens of the player.
#[derive(Clone, Copy, Debug, PartialEq, Eq, Structural)]
pub enum GuiScreen {
    Player,
    Lyrics,
    FileSelectAddFolder,
    FileSelectAddFile,
    FileSelectOpenFolder,
    FileSelectOpenFile,
    FileSelectSaveFile,
}

impl GuiScreen {
    /// Whether the screen picks a folder (to add, open or save into) rather than a file.
    pub fn picks_folder(&self) -> (r: bool)
        ensures
            r <==> (*self == GuiScreen::FileSelectAddFolder || *self
                == GuiScreen::FileSelectOpenFolder || *self == GuiScreen::FileSelectSaveFile),
    {
        match self {
            GuiScreen::FileSelectAddFolder | GuiScreen::FileSelectOpenFolder
            | GuiScreen::FileSelectSaveFile => true,
            _ => false,
        }
    }

    /// Whether the screen is one of the file selection screens.
    pub fn is_file_select(&self) -> (r: bool)
        ensures
            r <==> !(*self == GuiScreen::Player || *self == GuiScreen::Lyrics),
    {
        match self {
            GuiScreen::Player | GuiScreen::Lyrics => false,
            _ => true,
        }
    }
}

/// What a screen asks of the main loop once it has been drawn.
#[derive(Clone, Copy, Debug, PartialEq, Eq, Structural)]
pub enum Action {
    Nothing,
    ExitProgram,
    SwitchGuiScreen(GuiScreen),
}

/// The keys that move the keyboard focus on the player screen, as seen in one frame.
#[derive(Clone, Copy, Debug, PartialEq, Eq, Structural)]
pub struct NavKeys {
    pub down: bool,
    pub up: bool,
    pub right: bool,
    pub left: bool,
    pub enter_released: bool,
    pub escape_released: bool,
}

/// The column after a right or left press on a row of `last + 1` buttons.
pub open spec fn moved_column(x: int, last: int, keys: NavKeys) -> int {
    let a = if keys.right && x < last {
        x + 1
    } else {
        x
    };
    if keys.left && a > 0 {
        a - 1
    } else {
        a
    }
}

/// Column, row, whether the playlist holds the focus, and whether its
/// selection is to be set up, after one frame of `keys`. Rows: 0 none, 1 the
/// top bar (seven buttons), 2 the playlist, 3 the progress bar, 4 the playback
/// controls (five buttons), 5 the volume bar.
pub open spec fn navigated(x: int, y: int, unselected: bool, keys: NavKeys) -> (int, int, bool, bool) {
    if unselected {
        (x, y, !keys.escape_released, false)
    } else {
        let (x1, y1) = if keys.down && y < 5 {
            (
                if y + 1 == 4 {
                    2int
                } else {
                    0int
                },
                y + 1,
            )
        } else {
            (x, y)
        };
        let (x2, y2) = if keys.up && y1 > 0 {
            (
                if y1 - 1 == 4 {
                    1int
                } else {
                    0int
                },
                y1 - 1,
            )
        } else {
            (x1, y1)
        };
        let x3 = if y2 == 1 {
            moved_column(x2, 6, keys)
        } else if y2 == 4 {
            moved_column(x2, 4, keys)
        } else {
            x2
        };
        let enter = keys.enter_released && y2 == 2;
        if keys.escape_released && !enter {
            (x3, 0, false, false)
        } else if keys.escape_released {
            (x3, y2, false, true)
        } else {
            (x3, y2, enter, enter)
        }
    }
}

/// Where the keyboard focus stands on the player screen.
pub struct MainGuiState {
    current_x: u32,
    current_y: u32,
    currently_unselected: bool,
}

impl Default for MainGuiState {
    fn default() -> (r: Self)
        ensures
            r.column() == 0,
            r.row() == 0,
            !r.in_playlist(),
    {
        MainGuiState { current_x: 0, current_y: 0, currently_unselected: false }
    }
}

impl MainGuiState {
    pub closed spec fn column(&self) -> u32 {
        self.current_x
    }

    pub closed spec fn row(&self) -> u32 {
        self.current_y
    }

    /// Whether the keys act on the playlist itself rather than move the focus.
    pub closed spec fn in_playlist(&self) -> bool {
        self.currently_unselected
    }

    pub fn current_x(&self) -> (r: u32)
        ensures
            r == self.column(),
    {
        self.current_x
    }

    pub fn current_y(&self) -> (r: u32)
        ensures
            r == self.row(),
    {
        self.current_y
    }

    pub fn currently_unselected(&self) -> (r: bool)
        ensures
            r == self.in_playlist(),
    {
        self.currently_unselected
    }

    /// Moves the focus by one frame of `keys`; true when the playlist has just
    /// taken the focus and its selection is to be set up.
    pub fn navigate(&mut self, keys: NavKeys) -> (r: bool)
        ensures
            (final(self).column() as int, final(self).row() as int, final(self).in_playlist(), r)
                == navigated(
                old(self).column() as int,
                old(self).row() as int,
                old(self).in_playlist(),
                keys,
            ),
    {
        let mut enter = false;
        if !self.currently_unselected {
            if keys.down && self.current_y < 5 {
                self.current_y = self.current_y + 1;
                self.current_x = 0;
                if self.current_y == 4 {
                    self.current_x = 2;
                }
            }
            if keys.up && self.current_y > 0 {
                self.current_y = self.current_y - 1;
                self.current_x = 0;
                if self.current_y == 4 {
                    self.current_x = 1;
                }
            }
            if self.current_y == 1 {
                if keys.right && self.current_x < 6 {
                    self.current_x = self.current_x + 1;
                }
                if keys.left && self.current_x > 0 {
                    self.current_x = self.current_x - 1;
                }
            }
            if self.current_y == 4 {
                if keys.right && self.current_x < 4 {
                    self.current_x = self.current_x + 1;
                }
                if keys.left && self.current_x > 0 {
                    self.current_x = self.current_x - 1;
                }
            }
            if keys.enter_released && self.current_y == 2 {
                self.currently_unselected = true;
                enter = true;
            }
        }
        if keys.escape_released {
            if self.currently_unselected {
                self.currently_unselected = false;
            } else {
                self.current_y = 0;
            }
        }
        enter
    }

    /// Puts the focus on the top bar.
    pub fn focus_top_bar(&mut self)
        ensures
            final(self).row() == 1,
            final(self).column() == old(self).column(),
            final(self).in_playlist() == old(self).in_playlist(),
    {
        self.current_y = 1;
    }

    /// Whether button `id` of the top bar has the focus.
    pub fn top_button_focused(&self, id: u32) -> (r: bool)
        ensures
            r == (self.row() == 1 && self.column() == id),
    {
        self.current_y == 1 && self.current_x == id
    }

    /// Whether button `id` of the playback controls has the focus.
    pub fn control_button_focused(&self, id: u32) -> (r: bool)
        ensures
            r == (self.row() == 4 && self.column() == id),
    {
        self.current_y == 4 && self.current_x == id
    }
}

} // verus!
