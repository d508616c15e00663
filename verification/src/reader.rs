//! The playback engine.
//!
//! A reader owns the settings, the pause flag, the exit flag and the pacing
//! interval, and steps through the word list one word per tick. Navigation
//! (step back, sentence back, restart on resume at the last word) always
//! pauses playback. The caller runs the frame loop, maps key events to
//! `InputKey` and performs the returned `ReaderAction`s; everything the loop
//! decides stands here.

use vstd::prelude::*;

use crate::input::{InputKey, ReaderAction};
use crate::menu::SettingsMenu;
use crate::settings::{cb_reload, same_settings, Settings};
use crate::text::{has_period, text_to_sv, tokens};

verus! {

/// The pacing interval in milliseconds for a rate of `wpm` words per
/// minute: whole milliseconds of one second per whole word-per-second
/// bucket.
pub open spec fn spec_calc_wait(wpm: u32) -> int {
    1000int / ((wpm + 59) / 60)
}

/// Derives the wait interval from the words-per-minute rate.
pub fn calc_wait(wpm: u32) -> (r: u64)
    requires
        wpm >= 1,
    ensures
        r as int == spec_calc_wait(wpm),
{
    let w: u64 = wpm as u64;
    1000 / ((w + 59) / 60)
}

/// Where sentence-back lands when the words strictly below index `upper`
/// are scanned: one past the highest of them that holds a period, and zero
/// when none does.
pub open spec fn bs_target(ws: Seq<Seq<char>>, upper: int) -> int
    decreases upper,
{
    if upper <= 0 {
        0
    } else if has_period(ws[upper - 1]) {
        upper
    } else {
        bs_target(ws, upper - 1)
    }
}

/// Sentence-back lands immediately after the nearest earlier word that
/// holds a period — every word from the landing index up to the scan bound
/// is period-free — and at zero when no scanned word has one.
pub proof fn lemma_bs_target(ws: Seq<Seq<char>>, upper: int)
    ensures
        0 <= bs_target(ws, upper) <= (if upper > 0 { upper } else { 0 }),
        bs_target(ws, upper) > 0 ==> has_period(ws[bs_target(ws, upper) - 1]),
        forall|x: int| bs_target(ws, upper) <= x < upper ==> !(#[trigger] has_period(ws[x])),
    decreases upper,
{
    if upper > 0 && !has_period(ws[upper - 1]) {
        lemma_bs_target(ws, upper - 1);
    }
}

pub struct Reader {
    pub exit: bool,
    pub paused: bool,
    pub wait: u64,
    pub settings: Settings,
}

/// Step back one word: the position drops by one (clamped to zero) and
/// playback pauses.
pub open spec fn steps_back(a: Reader, b: Reader) -> bool {
    b == (Reader {
        paused: true,
        settings: (Settings {
            word_index: if a.settings.word_index > 0 {
                (a.settings.word_index - 1) as usize
            } else {
                0
            },
            ..a.settings
        }),
        ..a
    })
}

/// Step back one sentence: the position moves to the sentence-back target
/// of the words strictly before it, and playback pauses.
pub open spec fn steps_back_sentence(a: Reader, b: Reader) -> bool {
    &&& b == (Reader {
        paused: true,
        settings: (Settings { word_index: b.settings.word_index, ..a.settings }),
        ..a
    })
    &&& b.settings.word_index as int == bs_target(
        a.settings.words.deep_view(),
        a.settings.word_index - 1,
    )
}

/// Advance one word on a tick: inside the list the position rises by one;
/// past its end it wraps to zero, and pauses unless the loop flag is set.
pub open spec fn advances(a: Reader, b: Reader) -> bool {
    if a.settings.word_index + 1 < a.settings.words@.len() {
        b == (Reader {
            settings: (Settings {
                word_index: (a.settings.word_index + 1) as usize,
                ..a.settings
            }),
            ..a
        })
    } else {
        b == (Reader {
            paused: a.paused || !a.settings.should_loop,
            settings: (Settings { word_index: 0, ..a.settings }),
            ..a
        })
    }
}

/// Toggle pause: resuming while paused at the last word restarts from the
/// first word.
pub open spec fn toggles(a: Reader, b: Reader) -> bool {
    b == (Reader {
        paused: !a.paused,
        settings: (Settings {
            word_index: if a.paused && a.settings.words@.len() > 0 && a.settings.word_index
                == a.settings.words@.len() - 1 {
                0
            } else {
                a.settings.word_index
            },
            ..a.settings
        }),
        ..a
    })
}

/// Reload from the clipboard: pause, exit flag and interval are untouched;
/// the settings change as a clipboard reload may change them.
pub open spec fn reloads_clipboard(a: Reader, b: Reader) -> bool {
    &&& b.exit == a.exit
    &&& b.paused == a.paused
    &&& b.wait == a.wait
    &&& cb_reload(a.settings, b.settings)
}

impl Reader {
    /// The word index points into the word list and the rate is positive.
    pub open spec fn wf(&self) -> bool {
        self.settings.wf() && self.settings.wpm >= 1
    }

    /// Builds a reader over the tokenized text, paused at the first word.
    /// The interval keeps one millisecond less than the derived wait — a
    /// quirk of this construction path alone.
    pub fn new(wpm: u32, text: &str, should_loop: bool) -> (r: Reader)
        requires
            wpm >= 1,
            spec_calc_wait(wpm) >= 5,
        ensures
            r.wf(),
            r.paused,
            !r.exit,
            r.wait as int == spec_calc_wait(wpm) - 1,
            r.settings.wpm == wpm,
            r.settings.word_index == 0,
            r.settings.should_loop == should_loop,
            r.settings.words.deep_view() == tokens(text@),
    {
        let wait = calc_wait(wpm);
        let words = text_to_sv(text);
        Reader {
            exit: false,
            paused: true,
            wait: wait - 1,
            settings: Settings { wpm, word_index: 0, words, should_loop },
        }
    }

    /// The checked construction path: a rate of zero, or one so high that
    /// the interval falls below five milliseconds, is rejected.
    pub fn try_new(wpm: u32, text: &str, should_loop: bool) -> (r: Option<Reader>)
        ensures
            match r {
                Some(rd) => {
                    &&& wpm >= 1
                    &&& spec_calc_wait(wpm) >= 5
                    &&& rd.wf()
                    &&& rd.paused
                    &&& !rd.exit
                    &&& rd.wait as int == spec_calc_wait(wpm) - 1
                    &&& rd.settings.wpm == wpm
                    &&& rd.settings.word_index == 0
                    &&& rd.settings.should_loop == should_loop
                    &&& rd.settings.words.deep_view() == tokens(text@)
                },
                None => wpm == 0 || spec_calc_wait(wpm) < 5,
            },
    {
        if wpm == 0 {
            return None;
        }
        let wait = calc_wait(wpm);
        if wait < 5 {
            return None;
        }
        Some(Self::new(wpm, text, should_loop))
    }

    /// Builds a reader over previously persisted settings, paused, with the
    /// interval derived from their rate (without the one-millisecond quirk
    /// of `new`).
    pub fn from_settings(settings: Settings) -> (r: Reader)
        requires
            settings.wpm >= 1,
            settings.wf(),
        ensures
            r.wf(),
            r.paused,
            !r.exit,
            r.settings == settings,
            r.wait as int == spec_calc_wait(settings.wpm),
    {
        let wait = calc_wait(settings.wpm);
        Reader { exit: false, paused: true, wait, settings }
    }

    /// The launch path: persisted settings when there are any, else the
    /// clipboard's text at the default rate, else a built-in phrase.
    pub fn startup(loaded: Option<Settings>) -> (r: Reader)
        requires
            match loaded {
                Some(s) => s.wpm >= 1 && s.wf(),
                None => true,
            },
        ensures
            r.wf(),
            r.paused,
            !r.exit,
            match loaded {
                Some(s) => r.settings == s && r.wait as int == spec_calc_wait(s.wpm),
                None => {
                    &&& r.settings.wpm == 400
                    &&& r.settings.word_index == 0
                    &&& !r.settings.should_loop
                    &&& r.wait as int == spec_calc_wait(400) - 1
                    &&& exists|t: Seq<char>|
                        r.settings.words.deep_view() == #[trigger] tokens(t)
                },
            },
    {
        proof {
            assert((400int + 59) / 60 == 7);
            assert(spec_calc_wait(400) == 142);
        }
        match loaded {
            Some(s) => Self::from_settings(s),
            None => {
                match crate::settings::clipboard_text() {
                    Some(t) => Self::new(400, t.as_str(), false),
                    None => Self::new(
                        400,
                        "the quick brown fox jumps over the lazy dog and reads it back twice as fast",
                        false,
                    ),
                }
            },
        }
    }

    /// The word under the cursor.
    pub fn curr_word(&self) -> (w: &String)
        requires
            self.wf(),
            self.settings.words@.len() > 0,
        ensures
            *w == self.settings.words@[self.settings.word_index as int],
    {
        &self.settings.words[self.settings.word_index]
    }

    pub fn back(&mut self)
        ensures
            steps_back(*old(self), *final(self)),
            old(self).wf() ==> final(self).wf(),
    {
        if self.settings.word_index > 0 {
            self.settings.word_index = self.settings.word_index - 1;
        }
        self.paused = true;
    }

    #[verifier::loop_isolation(false)]
    pub fn back_sentence(&mut self)
        requires
            old(self).settings.word_index <= old(self).settings.words@.len(),
        ensures
            steps_back_sentence(*old(self), *final(self)),
            final(self).settings.wf(),
            old(self).wf() ==> final(self).wf(),
    {
        let ghost ws = self.settings.words.deep_view();
        let p = self.settings.word_index;
        let bound: usize = if p > 0 {
            p - 1
        } else {
            0
        };
        let mut target: usize = 0;
        let mut x: usize = 0;
        while x < bound
            invariant
                x <= bound,
                target <= x,
                target as int == bs_target(ws, x as int),
            decreases bound - x,
        {
            if contains_period_at(&self.settings.words, x) {
                target = x + 1;
            }
            x += 1;
        }
        self.settings.word_index = target;
        self.paused = true;
    }

    pub fn update_word(&mut self)
        requires
            old(self).wf(),
        ensures
            advances(*old(self), *final(self)),
            final(self).wf(),
    {
        let len = self.settings.words.len();
        if self.settings.word_index + 1 < len {
            self.settings.word_index = self.settings.word_index + 1;
        } else {
            if !self.settings.should_loop {
                self.paused = true;
            }
            self.settings.word_index = 0;
        }
    }

    pub fn toggle_pause(&mut self)
        ensures
            toggles(*old(self), *final(self)),
            old(self).wf() ==> final(self).wf(),
    {
        if self.paused && self.settings.words.len() > 0 && self.settings.word_index
            == self.settings.words.len() - 1 {
            self.settings.word_index = 0;
        }
        self.paused = !self.paused;
    }

    /// Recomputes the interval from the current rate, as after a menu
    /// session that may have changed it.
    pub fn update_wpm(&mut self)
        requires
            old(self).settings.wpm >= 1,
        ensures
            *final(self) == (Reader { wait: final(self).wait, ..*old(self) }),
            final(self).wait as int == spec_calc_wait(old(self).settings.wpm),
    {
        self.wait = calc_wait(self.settings.wpm);
    }

    /// Raises the exit flag; the caller still persists the settings.
    pub fn quit(&mut self)
        ensures
            *final(self) == (Reader { exit: true, ..*old(self) }),
    {
        self.exit = true;
    }

    /// Replaces the word list from the clipboard, leaving pause state and
    /// pacing untouched.
    pub fn words_from_cb(&mut self)
        ensures
            reloads_clipboard(*old(self), *final(self)),
            old(self).wf() ==> final(self).wf(),
    {
        self.settings.get_text_cb();
    }

    /// Pauses playback and opens a menu session over a copy of the
    /// settings.
    pub fn begin_settings(&mut self) -> (m: SettingsMenu)
        ensures
            *final(self) == (Reader { paused: true, ..*old(self) }),
            same_settings(old(self).settings, m.settings),
            m.index == 0,
            !m.view_words,
            old(self).wf() ==> m.wf(),
    {
        self.paused = true;
        SettingsMenu::new(&self.settings)
    }

    /// Commits a finished menu session: its settings copy replaces the
    /// reader's and the interval is re-derived from the (possibly changed)
    /// rate.
    pub fn end_settings(&mut self, menu: SettingsMenu)
        requires
            menu.settings.wpm >= 1,
            menu.settings.wf(),
        ensures
            final(self).settings == menu.settings,
            final(self).wait as int == spec_calc_wait(menu.settings.wpm),
            final(self).exit == old(self).exit,
            final(self).paused == old(self).paused,
            final(self).wf(),
    {
        self.settings = menu.settings;
        self.update_wpm();
    }

    /// Dispatches one key press of the playback screen and names the
    /// outside work that remains for the caller.
    pub fn handle_key(&mut self, key: InputKey) -> (action: ReaderAction)
        requires
            old(self).wf(),
        ensures
            final(self).wf(),
            match key {
                InputKey::Esc => *final(self) == *old(self) && action == ReaderAction::OpenSettings,
                InputKey::Space => toggles(*old(self), *final(self)) && action
                    == ReaderAction::NoAction,
                InputKey::Q => *final(self) == (Reader { exit: true, ..*old(self) }) && action
                    == ReaderAction::Save,
                InputKey::S => *final(self) == *old(self) && action == ReaderAction::Save,
                InputKey::B => steps_back(*old(self), *final(self)) && action
                    == ReaderAction::NoAction,
                InputKey::CapitalB => steps_back_sentence(*old(self), *final(self)) && action
                    == ReaderAction::NoAction,
                InputKey::Enter => reloads_clipboard(*old(self), *final(self)) && action
                    == ReaderAction::NoAction,
                _ => *final(self) == *old(self) && action == ReaderAction::NoAction,
            },
    {
        match key {
            InputKey::Esc => ReaderAction::OpenSettings,
            InputKey::Space => {
                self.toggle_pause();
                ReaderAction::NoAction
            },
            InputKey::Q => {
                self.quit();
                ReaderAction::Save
            },
            InputKey::S => ReaderAction::Save,
            InputKey::B => {
                self.back();
                ReaderAction::NoAction
            },
            InputKey::CapitalB => {
                self.back_sentence();
                ReaderAction::NoAction
            },
            InputKey::Enter => {
                self.words_from_cb();
                ReaderAction::NoAction
            },
            _ => ReaderAction::NoAction,
        }
    }
}

/// Whether the word at `x` holds a period.
fn contains_period_at(words: &Vec<String>, x: usize) -> (r: bool)
    requires
        x < words@.len(),
    ensures
        r == has_period(words.deep_view()[x as int]),
{
    crate::text::contains_period(words[x].as_str())
}

} // verus!
