use vstd::prelude::*;

use crate::attributed_text::{color_for, color_of, AttributedLetter};
use crate::error::TypingError;
use crate::text_generator::{join_words, TextGenerator};
use crate::typing_statistic::{
    elapsed, errors_of, speed_tenths, timings_of, TypingState, TypingStatistic,
};

verus! {

broadcast use vstd::string::group_string_axioms;

/// How a character of the target text has been typed so far.
#[derive(Debug, Clone, Copy, PartialEq, Eq, Structural)]
pub enum Pressed {
    /// Typed correctly.
    Pressed,
    /// Not reached yet.
    NotPressed,
    /// Missed at least once and not yet typed correctly.
    WrongPressed,
}

impl Default for Pressed {
    fn default() -> (r: Pressed)
        ensures
            r == Pressed::NotPressed,
    {
        Pressed::NotPressed
    }
}

/// One character of the target text with its status.
#[derive(Debug, Clone, Copy, PartialEq, Eq, Structural)]
pub struct KeyLetter {
    pub character: char,
    pub pressed: Pressed,
}

impl KeyLetter {
    pub fn new(character: char, pressed: Pressed) -> (r: KeyLetter)
        ensures
            r == (KeyLetter { character, pressed }),
    {
        KeyLetter { character, pressed }
    }
}

/// An input event for the session.
#[derive(Debug, Clone, Copy, PartialEq, Eq, Structural)]
pub enum Action {
    /// A printable character was typed.
    KeyPressed(char),
}

/// The characters of a target text.
pub open spec fn chars_of(text: Seq<KeyLetter>) -> Seq<char> {
    text.map_values(|l: KeyLetter| l.character)
}

/// Every character of `text` is untyped.
pub open spec fn all_untyped(text: Seq<KeyLetter>) -> bool {
    forall|i: int| 0 <= i < text.len() ==> (#[trigger] text[i]).pressed == Pressed::NotPressed
}

/// Whether `key` is what the text expects at `cursor`.
pub open spec fn hits(text: Seq<KeyLetter>, cursor: int, key: char) -> bool {
    text[cursor].character == key
}

/// The text after `key` is typed at `cursor`: the character there becomes
/// correct on a hit and wrong on a miss.
pub open spec fn text_after(text: Seq<KeyLetter>, cursor: int, key: char) -> Seq<KeyLetter> {
    text.update(
        cursor,
        KeyLetter {
            character: text[cursor].character,
            pressed: if hits(text, cursor, key) {
                Pressed::Pressed
            } else {
                Pressed::WrongPressed
            },
        },
    )
}

/// The cursor after `key` is typed at `cursor`: one further on a hit.
pub open spec fn cursor_after(text: Seq<KeyLetter>, cursor: int, key: char) -> int {
    if hits(text, cursor, key) {
        cursor + 1
    } else {
        cursor
    }
}

/// Whether typing `key` at `cursor` counts a new error: a miss at a
/// character that had not been missed before.
pub open spec fn new_error(text: Seq<KeyLetter>, cursor: int, key: char) -> bool {
    !hits(text, cursor, key) && text[cursor].pressed == Pressed::NotPressed
}

/// How the per-key records change from `before` to `after` when `key` is
/// typed at `cursor` of `text` at `now`: a hit adds the time since the
/// previous keystroke to the key's timings; a first miss counts one error
/// against the expected character; a repeated miss changes neither.
pub open spec fn keys_recorded(
    before: TypingStatistic,
    after: TypingStatistic,
    text: Seq<KeyLetter>,
    cursor: int,
    key: char,
    now: u64,
) -> bool {
    let expected = text[cursor].character as u32;
    if hits(text, cursor, key) {
        &&& after.key_timings@.contains_key(key as u32)
        &&& after.key_timings@[key as u32]@ == timings_of(before.key_timings@, key as u32).push(
            elapsed(before.start_key, now),
        )
        &&& after.key_timings@.remove(key as u32) == before.key_timings@.remove(key as u32)
        &&& after.key_errors@ == before.key_errors@
    } else if new_error(text, cursor, key) {
        &&& after.key_timings@ == before.key_timings@
        &&& after.key_errors@ == before.key_errors@.insert(
            expected,
            (errors_of(before.key_errors@, expected) + 1) as usize,
        )
    } else {
        &&& after.key_timings@ == before.key_timings@
        &&& after.key_errors@ == before.key_errors@
    }
}

/// Joining `n` words puts at least `n - 1` spaces between them.
pub proof fn lemma_join_words_len(ws: Seq<Seq<char>>)
    ensures
        ws.len() >= 1 ==> join_words(ws).len() >= ws.len() - 1,
    decreases ws.len(),
{
    if ws.len() > 1 {
        lemma_join_words_len(ws.drop_last());
    }
}

/// A typing session: a target text drawn from a word source, the cursor at
/// the next character to type, the pending key event and the statistics of
/// the running sample. Times are milliseconds of a monotonic clock.
pub struct MainViewState {
    pub text_gen: TextGenerator,
    pub word_count: usize,
    pub cursor: usize,
    pub text: Vec<KeyLetter>,
    pub action: Option<Action>,
    pub statistic: TypingStatistic,
}

impl MainViewState {
    /// The parts that do not depend on the target text.
    pub open spec fn setup_wf(&self) -> bool {
        &&& self.text_gen.wf()
        &&& self.word_count > 0
        &&& self.statistic.wf()
    }

    /// Characters before the cursor are correct, those after it untyped; the
    /// statistics count one correct keystroke per character passed and at
    /// most one error per character reached.
    pub open spec fn wf(&self) -> bool {
        &&& self.setup_wf()
        &&& !self.statistic.finished
        &&& self.cursor <= self.text@.len()
        &&& forall|i: int|
            0 <= i < self.cursor ==> (#[trigger] self.text@[i]).pressed == Pressed::Pressed
        &&& forall|i: int|
            self.cursor < i < self.text@.len() ==> (#[trigger] self.text@[i]).pressed
                == Pressed::NotPressed
        &&& self.statistic.key_count == self.cursor
        &&& self.statistic.errors_count <= self.cursor + if self.cursor < self.text@.len()
            && self.text@[self.cursor as int].pressed == Pressed::WrongPressed {
            1int
        } else {
            0int
        }
    }

    /// A fresh target: untyped, cursor at the start, made of
    /// `word_count` candidate words joined by spaces.
    pub open spec fn fresh(&self) -> bool {
        &&& self.cursor == 0
        &&& all_untyped(self.text@)
        &&& exists|ws: Seq<Seq<char>>|
            self.text_gen.drawn_from(ws, self.word_count as nat) && chars_of(self.text@)
                == join_words(ws)
    }

    /// Sets the target text to `words` joined by spaces, all untyped, with
    /// the cursor at the start. A running sample is archived and a new one
    /// starts at `now`.
    pub fn set_words(&mut self, words: &Vec<String>, now: u64)
        requires
            old(self).setup_wf(),
        ensures
            final(self).wf(),
            final(self).cursor == 0,
            all_untyped(final(self).text@),
            chars_of(final(self).text@) == join_words(words@.map_values(|w: String| w@)),
            final(self).text_gen == old(self).text_gen,
            final(self).word_count == old(self).word_count,
            final(self).action == old(self).action,
            final(self).statistic.start_sample == now,
            final(self).statistic.start_key == now,
            final(self).statistic.key_count == 0,
            final(self).statistic.errors_count == 0,
            final(self).statistic.key_timings@.len() == 0,
            final(self).statistic.key_errors@.len() == 0,
            !old(self).statistic.finished ==> final(self).statistic.samples@.len()
                == old(self).statistic.samples@.len() + 1,
            old(self).statistic.finished ==> final(self).statistic.samples
                == old(self).statistic.samples,
    {
        let mut text: Vec<KeyLetter> = Vec::new();
        let ghost ws = words@.map_values(|w: String| w@);
        for k in 0..words.len()
            invariant
                ws == words@.map_values(|w: String| w@),
                ws.len() == words.len(),
                all_untyped(text@),
                chars_of(text@) == join_words(ws.take(k as int)),
        {
            let ghost base = text@;
            if k > 0 {
                text.push(KeyLetter::new(' ', Pressed::NotPressed));
            }
            let ghost start = text@;
            let ghost mut read: Seq<char> = Seq::empty();
            let word: &str = words[k].as_str();
            for c in it: word.chars()
                invariant
                    it.seq() == word@,
                    word@ == ws[k as int],
                    read == it.seq().take(it.index() as int),
                    all_untyped(text@),
                    text@.len() == start.len() + read.len(),
                    text@.take(start.len() as int) == start,
                    chars_of(text@) == chars_of(start) + read,
            {
                assert(it.seq().take(it.index() + 1) =~= read.push(c));
                let ghost before = text@;
                text.push(KeyLetter::new(c, Pressed::NotPressed));
                assert(chars_of(text@) =~= chars_of(before).push(c));
                proof {
                    read = read.push(c);
                }
                assert(chars_of(text@) =~= chars_of(start) + read);
                assert(text@.take(start.len() as int) =~= start);
            }
            assert(read =~= ws[k as int]);
            assert(ws.take(k + 1).drop_last() =~= ws.take(k as int));
            if k > 0 {
                assert(chars_of(start) =~= chars_of(base) + seq![' ']);
            } else {
                assert(ws.take(1) =~= seq![ws[0]]);
                assert(chars_of(start) =~= Seq::<char>::empty());
            }
            assert(chars_of(text@) =~= join_words(ws.take(k + 1)));
        }
        assert(ws.take(words.len() as int) =~= ws);
        self.text = text;
        self.cursor = 0;
        if !self.statistic.is_finished() {
            self.statistic.finish_sample(now);
        }
        self.statistic.start_sample(now);
    }

    /// Starts a session on a target of `word_count` words drawn from
    /// `text_gen`; its sample starts at `now`. Asking for no words is
    /// rejected.
    pub fn new(text_gen: TextGenerator, word_count: usize, now: u64) -> (r: Result<
        MainViewState,
        TypingError,
    >)
        requires
            text_gen.wf(),
        ensures
            r is Ok <==> word_count > 0,
            r matches Err(e) ==> e == TypingError::InvalidInput,
            r matches Ok(s) ==> {
                &&& s.wf()
                &&& s.fresh()
                &&& s.action is None
                &&& s.word_count == word_count
                &&& s.text_gen == text_gen
                &&& s.statistic.samples@.len() == 0
                &&& s.statistic.start_sample == now
                &&& word_count >= 2 ==> s.text@.len() > 0
            },
    {
        if word_count == 0 {
            return Err(TypingError::InvalidInput);
        }
        let mut st = MainViewState {
            text_gen,
            word_count,
            cursor: 0,
            text: Vec::new(),
            action: None,
            statistic: TypingStatistic::new(now),
        };
        st.generate_text(now);
        Ok(st)
    }

    /// Replaces the target with `word_count` freshly drawn words. With two
    /// or more words the target is never empty; a single word may be an
    /// empty line of the word list, and then so is the target.
    fn generate_text(&mut self, now: u64)
        requires
            old(self).setup_wf(),
        ensures
            final(self).wf(),
            final(self).fresh(),
            final(self).text_gen == old(self).text_gen,
            final(self).word_count == old(self).word_count,
            final(self).action == old(self).action,
            final(self).statistic.start_sample == now,
            final(self).word_count >= 2 ==> final(self).text@.len() > 0,
            final(self).statistic.key_count == 0,
            final(self).statistic.errors_count == 0,
            final(self).statistic.key_timings@.len() == 0,
            final(self).statistic.key_errors@.len() == 0,
            !old(self).statistic.finished ==> final(self).statistic.samples@.len()
                == old(self).statistic.samples@.len() + 1,
            old(self).statistic.finished ==> final(self).statistic.samples
                == old(self).statistic.samples,
    {
        let alphabet: Vec<char> = Vec::new();
        let drawn = self.text_gen.generate(&alphabet, self.word_count);
        assert(drawn is Ok);
        let words = match drawn {
            Ok(ws) => ws,
            Err(_) => Vec::new(),
        };
        self.set_words(&words, now);
        proof {
            let ws = words@.map_values(|w: String| w@);
            assert(self.text_gen.drawn_from(ws, self.word_count as nat));
            lemma_join_words_len(ws);
            assert(self.text@.len() == chars_of(self.text@).len());
        }
    }

    /// Types `key` at the cursor. On the expected character it becomes
    /// correct, the cursor moves on and the time since the previous keystroke
    /// is recorded for that key; on another it becomes wrong and the cursor
    /// stays, with an error counted against the expected character only at
    /// the first miss there. Either way the next keystroke is timed from
    /// `now`.
    pub fn press_key(&mut self, key: char, now: u64)
        requires
            old(self).wf(),
            old(self).cursor < old(self).text@.len(),
        ensures
            final(self).wf(),
            final(self).text@ == text_after(old(self).text@, old(self).cursor as int, key),
            final(self).cursor == cursor_after(old(self).text@, old(self).cursor as int, key),
            final(self).statistic.errors_count == old(self).statistic.errors_count + if new_error(
                old(self).text@,
                old(self).cursor as int,
                key,
            ) {
                1int
            } else {
                0int
            },
            final(self).text_gen == old(self).text_gen,
            final(self).word_count == old(self).word_count,
            final(self).action == old(self).action,
            final(self).statistic.start_sample == old(self).statistic.start_sample,
            final(self).statistic.samples == old(self).statistic.samples,
            final(self).statistic.start_key == now,
            keys_recorded(
                old(self).statistic,
                final(self).statistic,
                old(self).text@,
                old(self).cursor as int,
                key,
                now,
            ),
    {
        let cursor = self.cursor;
        let len = self.text.len();
        assert(self.statistic.key_count < len);
        let expected = self.text[cursor].character;
        if key == expected {
            self.statistic.key_pressed(key, true, now);
            self.text.set(cursor, KeyLetter::new(expected, Pressed::Pressed));
            self.cursor = cursor + 1;
        } else {
            if self.text[cursor].pressed == Pressed::NotPressed {
                self.statistic.key_pressed(expected, false, now);
            } else {
                self.statistic.start_key = now;
            }
            self.text.set(cursor, KeyLetter::new(expected, Pressed::WrongPressed));
        }
        assert(self.text@ =~= text_after(old(self).text@, cursor as int, key));
    }

    /// Sets the pending event; a later one replaces an unprocessed earlier
    /// one.
    pub fn action(&mut self, action: Option<Action>)
        ensures
            *final(self) == (MainViewState { action, ..*old(self) }),
    {
        self.action = action;
    }

    /// Processes the pending event, if any, at `now`, and clears it. A key
    /// typed while the cursor is inside the target is checked as by
    /// `press_key`, so the key that completes the target leaves the cursor at
    /// its end. A key typed once the target is used up archives the sample
    /// and draws a new target; the result says whether that happened.
    pub fn update(&mut self, now: u64) -> (regenerated: bool)
        requires
            old(self).wf(),
        ensures
            final(self).wf(),
            final(self).action is None,
            final(self).text_gen == old(self).text_gen,
            final(self).word_count == old(self).word_count,
            old(self).action is None ==> !regenerated && *final(self) == *old(self),
            regenerated ==> {
                &&& final(self).fresh()
                &&& final(self).word_count >= 2 ==> final(self).text@.len() > 0
                &&& final(self).statistic.start_sample == now
                &&& final(self).statistic.samples@.len() == old(self).statistic.samples@.len() + 1
                &&& final(self).statistic.key_count == 0
                &&& final(self).statistic.errors_count == 0
                &&& final(self).statistic.key_timings@.len() == 0
                &&& final(self).statistic.key_errors@.len() == 0
            },
            !regenerated ==> final(self).text@.len() == old(self).text@.len(),
            old(self).action matches Some(Action::KeyPressed(key)) ==> {
                let text = old(self).text@;
                let c = old(self).cursor as int;
                &&& regenerated == (c >= text.len())
                &&& !regenerated ==> {
                    &&& final(self).text@ == text_after(text, c, key)
                    &&& final(self).cursor == cursor_after(text, c, key)
                    &&& final(self).statistic.errors_count == old(self).statistic.errors_count
                        + if new_error(text, c, key) {
                        1int
                    } else {
                        0int
                    }
                    &&& final(self).statistic.start_key == now
                    &&& final(self).statistic.samples == old(self).statistic.samples
                    &&& keys_recorded(old(self).statistic, final(self).statistic, text, c, key, now)
                }
            },
    {
        match self.action {
            None => false,
            Some(Action::KeyPressed(key)) => {
                self.action = None;
                if self.cursor >= self.text.len() {
                    self.generate_text(now);
                    true
                } else {
                    self.press_key(key, now);
                    false
                }
            },
        }
    }

    /// Speed since the sample started and errors counted in it.
    pub fn current_state(&self, now: u64) -> (r: TypingState)
        requires
            self.wf(),
        ensures
            r.speed_tenths == speed_tenths(
                self.cursor as nat,
                elapsed(self.statistic.start_sample, now) as nat,
            ),
            r.errors == self.statistic.errors_count,
    {
        self.statistic.get_current_state(now)
    }

    /// The target as it is shown: each character coloured by its status,
    /// spaces drawn as `'_'`.
    pub fn get_styled_text(&self) -> (r: Vec<AttributedLetter>)
        ensures
            r@.len() == self.text@.len(),
            forall|i: int|
                0 <= i < r@.len() ==> #[trigger] r@[i] == (AttributedLetter {
                    character: shown_char(self.text@[i].character),
                    color: color_of(self.text@[i].pressed),
                }),
    {
        let mut r: Vec<AttributedLetter> = Vec::new();
        for i in 0..self.text.len()
            invariant
                r@.len() == i,
                forall|j: int|
                    0 <= j < i ==> #[trigger] r@[j] == (AttributedLetter {
                        character: shown_char(self.text@[j].character),
                        color: color_of(self.text@[j].pressed),
                    }),
        {
            let kl = self.text[i];
            let character = if kl.character == ' ' {
                '_'
            } else {
                kl.character
            };
            r.push(AttributedLetter::new(character, color_for(kl.pressed)));
        }
        r
    }
}

/// How a character of the target is drawn: a space as `'_'`.
pub open spec fn shown_char(c: char) -> char {
    if c == ' ' {
        '_'
    } else {
        c
    }
}

} // verus!
