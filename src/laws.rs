use vstd::prelude::*;

use crate::session::{chars_of, cursor_after, hits, new_error, text_after, KeyLetter, Pressed};
use crate::typing_statistic::speed_tenths;

verus! {

/// A keystroke never moves the cursor back, moves it at most one place, and
/// keeps it within the text.
pub proof fn cursor_stays_in_bounds(text: Seq<KeyLetter>, cursor: int, key: char)
    requires
        0 <= cursor < text.len(),
    ensures
        cursor <= cursor_after(text, cursor, key) <= cursor + 1,
        cursor_after(text, cursor, key) <= text.len(),
{
}

/// The text and cursor after typing `keys` from `cursor`, stopping once the
/// text is used up.
pub open spec fn run_keys(text: Seq<KeyLetter>, cursor: int, keys: Seq<char>) -> (Seq<
    KeyLetter,
>, int)
    decreases keys.len(),
{
    if keys.len() == 0 || cursor < 0 || cursor >= text.len() {
        (text, cursor)
    } else {
        run_keys(
            text_after(text, cursor, keys[0]),
            cursor_after(text, cursor, keys[0]),
            keys.drop_first(),
        )
    }
}

/// Over any sequence of keys the cursor never moves back, moves at most one
/// place per key, stays within the text, and the text keeps its characters.
pub proof fn key_sequence_keeps_cursor_in_bounds(
    text: Seq<KeyLetter>,
    cursor: int,
    keys: Seq<char>,
)
    requires
        0 <= cursor <= text.len(),
    ensures
        cursor <= run_keys(text, cursor, keys).1 <= text.len(),
        run_keys(text, cursor, keys).1 <= cursor + keys.len(),
        chars_of(run_keys(text, cursor, keys).0) == chars_of(text),
    decreases keys.len(),
{
    if keys.len() > 0 && cursor < text.len() {
        let next = text_after(text, cursor, keys[0]);
        assert(chars_of(next) =~= chars_of(text));
        key_sequence_keeps_cursor_in_bounds(
            next,
            cursor_after(text, cursor, keys[0]),
            keys.drop_first(),
        );
    }
}

/// Typing the expected character moves the cursor on by exactly one and
/// marks that character correct.
pub proof fn expected_key_advances(text: Seq<KeyLetter>, cursor: int)
    requires
        0 <= cursor < text.len(),
    ensures
        cursor_after(text, cursor, text[cursor].character) == cursor + 1,
        text_after(text, cursor, text[cursor].character)[cursor].pressed == Pressed::Pressed,
        !new_error(text, cursor, text[cursor].character),
{
}

/// A wrong character leaves the cursor in place and marks the character
/// wrong; it counts an error exactly when the character had not been missed,
/// so a second miss at the same place counts none.
pub proof fn wrong_key_counts_once(text: Seq<KeyLetter>, cursor: int, first: char, second: char)
    requires
        0 <= cursor < text.len(),
        !hits(text, cursor, first),
        !hits(text, cursor, second),
    ensures
        cursor_after(text, cursor, first) == cursor,
        text_after(text, cursor, first)[cursor].pressed == Pressed::WrongPressed,
        new_error(text, cursor, first) <==> text[cursor].pressed == Pressed::NotPressed,
        !hits(text_after(text, cursor, first), cursor, second),
        !new_error(text_after(text, cursor, first), cursor, second),
        text_after(text_after(text, cursor, first), cursor, second) == text_after(
            text,
            cursor,
            first,
        ),
{
    assert(text_after(text_after(text, cursor, first), cursor, second) =~= text_after(
        text,
        cursor,
        first,
    ));
}

/// With no correct keystroke the speed is zero, however long the sample.
pub proof fn no_keystrokes_no_speed(elapsed_ms: nat)
    ensures
        speed_tenths(0, elapsed_ms) == 0,
{
}

} // verus!
