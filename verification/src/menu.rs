//! The modal settings editor.
//!
//! The menu works on a private copy of the settings and has two views: the
//! field editor (a cursor over words-per-minute, loop flag and word list)
//! and the word browser (the word list with the current word highlighted).
//! Closing the editor ends the menu session; closing the browser only
//! returns to the editor.

use vstd::prelude::*;

use crate::input::InputKey;
use crate::settings::{cb_reload, same_settings, Settings};

verus! {

/// The number of editable fields: words per minute, loop flag, word list.
pub const NUM_ELEMENTS: u8 = 3;

pub struct SettingsMenu {
    pub settings: Settings,
    pub index: u8,
    pub view_words: bool,
}

/// Moving the field cursor one step toward the first field; only the field
/// editor has a cursor.
pub open spec fn menu_up(a: SettingsMenu, b: SettingsMenu) -> bool {
    b == (SettingsMenu {
        index: if !a.view_words && a.index > 0 {
            (a.index - 1) as u8
        } else {
            a.index
        },
        ..a
    })
}

/// Moving the field cursor one step toward the last field.
pub open spec fn menu_down(a: SettingsMenu, b: SettingsMenu) -> bool {
    b == (SettingsMenu {
        index: if !a.view_words && a.index + 1 < NUM_ELEMENTS {
            (a.index + 1) as u8
        } else {
            a.index
        },
        ..a
    })
}

/// The right/activate adjustment: in the browser it moves the highlighted
/// word forward (clamped to the list); in the editor it raises the rate by
/// ten or toggles the loop flag, depending on the focused field.
pub open spec fn menu_increase(a: SettingsMenu, b: SettingsMenu) -> bool {
    if a.view_words {
        b == (SettingsMenu {
            settings: (Settings {
                word_index: if a.settings.word_index + 1 < a.settings.words@.len() {
                    (a.settings.word_index + 1) as usize
                } else {
                    a.settings.word_index
                },
                ..a.settings
            }),
            ..a
        })
    } else if a.index == 0 {
        b == (SettingsMenu { settings: (Settings { wpm: (a.settings.wpm + 10) as u32, ..a.settings }), ..a })
    } else if a.index == 1 {
        b == (SettingsMenu {
            settings: (Settings { should_loop: !a.settings.should_loop, ..a.settings }),
            ..a
        })
    } else {
        b == a
    }
}

/// The left adjustment: in the browser it moves the highlighted word back
/// (clamped to zero); in the editor it lowers the rate by ten with a floor
/// of ten, or toggles the loop flag.
pub open spec fn menu_decrease(a: SettingsMenu, b: SettingsMenu) -> bool {
    if a.view_words {
        b == (SettingsMenu {
            settings: (Settings {
                word_index: if a.settings.word_index > 0 {
                    (a.settings.word_index - 1) as usize
                } else {
                    0
                },
                ..a.settings
            }),
            ..a
        })
    } else if a.index == 0 {
        b == (SettingsMenu {
            settings: (Settings {
                wpm: if a.settings.wpm > 10 {
                    (a.settings.wpm - 10) as u32
                } else {
                    a.settings.wpm
                },
                ..a.settings
            }),
            ..a
        })
    } else if a.index == 1 {
        b == (SettingsMenu {
            settings: (Settings { should_loop: !a.settings.should_loop, ..a.settings }),
            ..a
        })
    } else {
        b == a
    }
}

/// The space key: on the loop-flag field it toggles the flag; on the
/// word-list field it pastes the clipboard.
pub open spec fn menu_space(a: SettingsMenu, b: SettingsMenu) -> bool {
    if a.index == 1 {
        b == (SettingsMenu {
            settings: (Settings { should_loop: !a.settings.should_loop, ..a.settings }),
            ..a
        })
    } else if a.index == 2 {
        b.index == a.index && b.view_words == a.view_words && cb_reload(a.settings, b.settings)
    } else {
        b == a
    }
}

impl SettingsMenu {
    /// The cursor stays on one of the fields and the settings copy stays
    /// well formed.
    pub open spec fn wf(&self) -> bool {
        self.index < NUM_ELEMENTS && self.settings.wf()
    }

    /// Opens the menu on a copy of the given settings, with the cursor on
    /// the first field and the field editor showing.
    pub fn new(settings: &Settings) -> (m: SettingsMenu)
        ensures
            same_settings(*settings, m.settings),
            m.index == 0,
            !m.view_words,
            settings.wf() ==> m.wf(),
    {
        SettingsMenu { settings: settings.clone(), index: 0, view_words: false }
    }

    pub fn up(&mut self)
        ensures
            menu_up(*old(self), *final(self)),
            old(self).wf() ==> final(self).wf(),
    {
        if !self.view_words && self.index > 0 {
            self.index = self.index - 1;
        }
    }

    pub fn down(&mut self)
        ensures
            menu_down(*old(self), *final(self)),
            old(self).wf() ==> final(self).wf(),
    {
        if !self.view_words && self.index < NUM_ELEMENTS - 1 {
            self.index = self.index + 1;
        }
    }

    pub fn increase(&mut self)
        requires
            old(self).view_words || old(self).index != 0 || old(self).settings.wpm <= u32::MAX
                - 10,
        ensures
            menu_increase(*old(self), *final(self)),
            old(self).wf() ==> final(self).wf(),
    {
        if self.view_words {
            if self.settings.words.len() > 0 && self.settings.word_index < self.settings.words.len()
                - 1 {
                self.settings.word_index = self.settings.word_index + 1;
            }
            return ;
        }
        if self.index == 0 {
            self.settings.wpm = self.settings.wpm + 10;
        } else if self.index == 1 {
            self.settings.should_loop = !self.settings.should_loop;
        }
    }

    pub fn decrease(&mut self)
        ensures
            menu_decrease(*old(self), *final(self)),
            old(self).wf() ==> final(self).wf(),
    {
        if self.view_words {
            if self.settings.word_index > 0 {
                self.settings.word_index = self.settings.word_index - 1;
            }
            return ;
        }
        if self.index == 0 {
            if self.settings.wpm > 10 {
                self.settings.wpm = self.settings.wpm - 10;
            }
        } else if self.index == 1 {
            self.settings.should_loop = !self.settings.should_loop;
        }
    }

    /// Dispatches one key press; the result says whether the menu session
    /// ends. Escape or `q` close the browser first and only then the menu.
    pub fn handle_key(&mut self, key: InputKey) -> (close: bool)
        requires
            old(self).wf(),
            key == InputKey::Right ==> old(self).view_words || old(self).index != 0 || old(
                self,
            ).settings.wpm <= u32::MAX - 10,
        ensures
            final(self).wf(),
            close == ((key == InputKey::Esc || key == InputKey::Q) && !old(self).view_words),
            match key {
                InputKey::Esc | InputKey::Q => if old(self).view_words {
                    *final(self) == (SettingsMenu { view_words: false, ..*old(self) })
                } else {
                    *final(self) == *old(self)
                },
                InputKey::Up => menu_up(*old(self), *final(self)),
                InputKey::Down => menu_down(*old(self), *final(self)),
                InputKey::Right => menu_increase(*old(self), *final(self)),
                InputKey::Left => menu_decrease(*old(self), *final(self)),
                InputKey::Space => menu_space(*old(self), *final(self)),
                InputKey::Enter => *final(self) == (SettingsMenu {
                    view_words: old(self).view_words || old(self).index == 2,
                    ..*old(self)
                }),
                _ => *final(self) == *old(self),
            },
    {
        match key {
            InputKey::Esc | InputKey::Q => {
                if self.view_words {
                    self.view_words = false;
                    false
                } else {
                    true
                }
            },
            InputKey::Up => {
                self.up();
                false
            },
            InputKey::Down => {
                self.down();
                false
            },
            InputKey::Right => {
                self.increase();
                false
            },
            InputKey::Left => {
                self.decrease();
                false
            },
            InputKey::Space => {
                if self.index == 1 {
                    self.settings.should_loop = !self.settings.should_loop;
                } else if self.index == 2 {
                    self.settings.get_text_cb();
                }
                false
            },
            InputKey::Enter => {
                if self.index == 2 {
                    self.view_words = true;
                }
                false
            },
            _ => false,
        }
    }
}

} // verus!
