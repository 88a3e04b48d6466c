//! A typing-practice engine: a source of random practice words, a session
//! that checks keystrokes against a target text, and a statistics
//! accumulator that reports speed and errors.

mod attributed_text;
mod error;
mod laws;
mod session;
mod text_generator;
mod typing_statistic;

pub use attributed_text::{color_for, color_of, AttributedLetter, AttributedText, TextColor};
pub use error::TypingError;
pub use text_generator::{join_words, split_lines, TextGenerator};
pub use typing_statistic::{
    elapsed, errors_of, speed_tenths, timings_of, SampleStatistic, TypingState, TypingStatistic,
};
pub use session::{
    all_untyped, chars_of, cursor_after, hits, keys_recorded, new_error, text_after, Action,
    KeyLetter,
    MainViewState, Pressed, shown_char,
};
pub use laws::{
    cursor_stays_in_bounds, expected_key_advances, key_sequence_keeps_cursor_in_bounds,
    no_keystrokes_no_speed, run_keys, wrong_key_counts_once,
};
