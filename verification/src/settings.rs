//! The settings value and its persisted projection.
//!
//! Settings hold {words per minute, current word index, word list, loop
//! flag}. The persisted record stores {words per minute, loop flag, words
//! joined with single spaces}; the word index is never persisted and resets
//! to zero on load. Reading and writing the record's file, and its JSON
//! encoding, happen outside the library; this module converts between the
//! two shapes and reloads the word list from the clipboard.

use vstd::prelude::*;

use crate::text::{join_words, joined, text_to_sv, tokens};

verus! {

pub struct Settings {
    pub wpm: u32,
    pub word_index: usize,
    pub words: Vec<String>,
    pub should_loop: bool,
}

/// The two settings values agree on everything they hold. (A clone agrees
/// with its original in this sense, though the two word vectors are distinct
/// values.)
pub open spec fn same_settings(a: Settings, b: Settings) -> bool {
    &&& a.wpm == b.wpm
    &&& a.word_index == b.word_index
    &&& a.should_loop == b.should_loop
    &&& a.words@ == b.words@
}

impl Clone for Settings {
    fn clone(&self) -> (res: Self)
        ensures
            same_settings(*self, res),
    {
        let words = self.words.clone();
        proof {
            assert forall|i: int| 0 <= i < self.words@.len() implies words@[i]
                == self.words@[i] by {
                assert(cloned::<String>(self.words[i], words[i]));
            }
            assert(words@ =~= self.words@);
        }
        Settings {
            wpm: self.wpm,
            word_index: self.word_index,
            words,
            should_loop: self.should_loop,
        }
    }
}

/// How a clipboard reload may change settings: rate and loop flag are kept,
/// and either nothing changed (the clipboard was unavailable) or the word
/// list is the tokenization of some text and the word index started over.
pub open spec fn cb_reload(a: Settings, b: Settings) -> bool {
    &&& b.wpm == a.wpm
    &&& b.should_loop == a.should_loop
    &&& (b == a || (b.word_index == 0 && exists|t: Seq<char>|
        b.words.deep_view() == #[trigger] tokens(t)))
}

impl Settings {
    /// The word index always points into the word list, or is zero when the
    /// list is empty.
    pub open spec fn wf(&self) -> bool {
        if self.words@.len() == 0 {
            self.word_index == 0
        } else {
            self.word_index < self.words@.len()
        }
    }

    /// Rebuilds settings from a persisted record: the word string is
    /// re-tokenized and the word index starts over at zero.
    pub fn from_record(wpm: u32, should_loop: bool, words: &str) -> (s: Settings)
        ensures
            s.wpm == wpm,
            s.should_loop == should_loop,
            s.word_index == 0,
            s.words.deep_view() == tokens(words@),
            s.wf(),
    {
        Settings { wpm, word_index: 0, words: text_to_sv(words), should_loop }
    }

    /// The persisted projection of these settings: the word index is left
    /// out, the words are joined with single spaces.
    pub fn to_record(&self) -> (r: (u32, bool, String))
        ensures
            r.0 == self.wpm,
            r.1 == self.should_loop,
            r.2@ == joined(self.words.deep_view()),
    {
        (self.wpm, self.should_loop, join_words(&self.words))
    }

    /// Replaces the word list with the clipboard's tokenized contents and
    /// resets the word index; an unavailable clipboard changes nothing.
    pub fn get_text_cb(&mut self)
        ensures
            cb_reload(*old(self), *final(self)),
            old(self).wf() ==> final(self).wf(),
    {
        if let Some(val) = clipboard_text() {
            self.words = text_to_sv(val.as_str());
            self.word_index = 0;
        }
    }
}

/// Round trip through the persisted record: re-tokenizing the joined word
/// string reproduces the word list, whenever every word is canonical
/// (non-empty, space-free, with no white-space at either end) — which
/// `lemma_tokens_canonical` shows of every list the tokenizer produced.
/// Together with the contracts of `to_record` and `from_record` this pins
/// the whole trip: rate and loop flag pass through unchanged and the word
/// index restarts at zero.
pub proof fn lemma_record_round_trip(s: Settings)
    requires
        forall|j: int| 0 <= j < s.words.deep_view().len() ==> crate::text::canonical_word(
            #[trigger] s.words.deep_view()[j],
        ),
    ensures
        tokens(joined(s.words.deep_view())) == s.words.deep_view(),
{
    crate::text::lemma_tokens_joined(s.words.deep_view());
}

/// Relies on cli_clipboard::get_contents: reads the system clipboard as a
/// string; the result depends on outside state, so nothing is promised of
/// it. An absent or unreadable clipboard gives `None`.
#[verifier::external_body]
pub(crate) fn clipboard_text() -> (r: Option<String>) {
    cli_clipboard::get_contents().ok()
}

} // verus!
