use rtyping::{
    color_for, Action, AttributedLetter, AttributedText, MainViewState, Pressed, SampleStatistic,
    TextColor, TextGenerator, TypingError, TypingStatistic,
};
use std::collections::HashMap;

fn session_on(words: &[&str], target: &[&str]) -> MainViewState {
    let list = words.join("\n");
    let generator = TextGenerator::new(&list).unwrap();
    let mut session = MainViewState::new(generator, 2, 0).unwrap();
    let target: Vec<String> = target.iter().map(|w| w.to_string()).collect();
    session.set_words(&target, 0);
    session
}

fn target_string(session: &MainViewState) -> String {
    session.text.iter().map(|l| l.character).collect()
}

fn press(session: &mut MainViewState, key: char, now: u64) -> bool {
    session.action(Some(Action::KeyPressed(key)));
    session.update(now)
}

#[test]
fn empty_word_list_is_rejected() {
    assert!(matches!(TextGenerator::new(""), Err(TypingError::InvalidInput)));
}

#[test]
fn word_list_keeps_empty_lines() {
    let generator = TextGenerator::new("a\n\nb").unwrap();
    let picked = generator.pick_words(&vec![0, 1, 2]);
    assert_eq!(picked, vec!["a".to_string(), String::new(), "b".to_string()]);
}

#[test]
fn word_list_with_trailing_line_break() {
    let generator = TextGenerator::new("cat\n").unwrap();
    let picked = generator.pick_words(&vec![1, 0]);
    assert_eq!(picked, vec![String::new(), "cat".to_string()]);
}

#[test]
fn zero_words_are_rejected() {
    let generator = TextGenerator::new("cat\ndog").unwrap();
    assert!(matches!(generator.generate(&vec![], 0), Err(TypingError::InvalidInput)));
    assert!(matches!(
        MainViewState::new(generator, 0, 0),
        Err(TypingError::InvalidInput)
    ));
}

#[test]
fn generated_words_come_from_the_list() {
    let generator = TextGenerator::new("cat\ndog").unwrap();
    for _ in 0..20 {
        let words = generator.generate(&vec![], 3).unwrap();
        assert_eq!(words.len(), 3);
        assert!(words.iter().all(|w| w == "cat" || w == "dog"));
    }
}

#[test]
fn typing_the_whole_target_regenerates() {
    let generator = TextGenerator::new("cat\ndog").unwrap();
    let mut session = MainViewState::new(generator, 2, 0).unwrap();
    let target = target_string(&session);
    assert!(["cat cat", "cat dog", "dog cat", "dog dog"].contains(&target.as_str()));
    assert_eq!(session.cursor, 0);
    let chars: Vec<char> = target.chars().collect();
    for (i, &c) in chars.iter().enumerate() {
        assert!(!press(&mut session, c, 100 * (i as u64 + 1)));
        assert_eq!(session.cursor, i + 1);
        assert_eq!(session.statistic.key_count, i + 1);
        assert_eq!(session.statistic.errors_count, 0);
    }
    assert_eq!(session.cursor, chars.len());
    assert!(session.text.iter().all(|l| l.pressed == Pressed::Pressed));
    assert_eq!(session.statistic.samples.len(), 0);
    assert!(press(&mut session, 'q', 1000));
    assert_eq!(session.statistic.samples.len(), 1);
    let sample = &session.statistic.samples[0];
    assert_eq!(sample.length, chars.len());
    assert_eq!(sample.errors, 0);
    assert_eq!(sample.time, 1_000_000);
    assert_eq!(session.cursor, 0);
    assert_eq!(session.text.len(), 7);
    assert!(session.text.iter().all(|l| l.pressed == Pressed::NotPressed));
    assert_eq!(session.statistic.key_count, 0);
    assert!(session.statistic.key_timings.is_empty());
}

#[test]
fn miss_then_hit_then_complete() {
    let mut session = session_on(&["ab"], &["ab"]);
    let archived = session.statistic.samples.len();
    assert!(!press(&mut session, 'x', 10));
    assert_eq!(session.text[0].pressed, Pressed::WrongPressed);
    assert_eq!(session.statistic.errors_count, 1);
    assert_eq!(session.cursor, 0);
    assert!(!press(&mut session, 'a', 20));
    assert_eq!(session.text[0].pressed, Pressed::Pressed);
    assert_eq!(session.cursor, 1);
    assert!(!press(&mut session, 'b', 30));
    assert_eq!(session.cursor, 2);
    assert_eq!(session.text[1].pressed, Pressed::Pressed);
    assert_eq!(session.statistic.errors_count, 1);
    assert!(press(&mut session, 'z', 40));
    assert_eq!(session.cursor, 0);
    assert_eq!(target_string(&session), "ab ab");
    assert_eq!(session.statistic.errors_count, 0);
    assert_eq!(session.statistic.samples.len(), archived + 1);
    assert_eq!(session.statistic.samples[archived].errors, 1);
    assert_eq!(session.statistic.samples[archived].length, 2);
}

#[test]
fn repeated_miss_counts_once() {
    let mut session = session_on(&["ab"], &["ab"]);
    session.press_key('x', 1);
    session.press_key('y', 2);
    session.press_key('x', 3);
    assert_eq!(session.statistic.errors_count, 1);
    assert_eq!(session.cursor, 0);
    assert_eq!(session.text[0].pressed, Pressed::WrongPressed);
    session.press_key('a', 4);
    session.press_key('z', 5);
    assert_eq!(session.statistic.errors_count, 2);
    assert_eq!(session.cursor, 1);
    assert_eq!(session.statistic.key_errors.get(&('a' as u32)), Some(&1));
    assert_eq!(session.statistic.key_errors.get(&('b' as u32)), Some(&1));
}

#[test]
fn cursor_never_leaves_bounds() {
    let mut session = session_on(&["ab"], &["ab", "ab"]);
    let mut previous = session.cursor;
    for (i, key) in "xa b!aab".chars().enumerate() {
        let regenerated = press(&mut session, key, i as u64);
        assert!(session.cursor <= session.text.len());
        if !regenerated {
            assert!(session.cursor == previous || session.cursor == previous + 1);
        }
        previous = session.cursor;
    }
}

#[test]
fn comparison_is_case_sensitive() {
    let mut session = session_on(&["ab"], &["ab"]);
    session.press_key('A', 1);
    assert_eq!(session.cursor, 0);
    assert_eq!(session.statistic.errors_count, 1);
}

#[test]
fn update_without_event_changes_nothing() {
    let mut session = session_on(&["ab"], &["ab"]);
    assert!(!session.update(5));
    assert_eq!(session.cursor, 0);
    assert_eq!(session.statistic.errors_count, 0);
}

#[test]
fn last_event_wins() {
    let mut session = session_on(&["ab"], &["ab"]);
    session.action(Some(Action::KeyPressed('x')));
    session.action(Some(Action::KeyPressed('a')));
    assert!(!session.update(5));
    assert_eq!(session.cursor, 1);
    assert_eq!(session.statistic.errors_count, 0);
    assert!(session.action.is_none());
}

#[test]
fn key_on_used_up_target_regenerates() {
    let mut session = session_on(&["ab"], &[""]);
    assert_eq!(session.text.len(), 0);
    assert!(press(&mut session, 'q', 7));
    assert_eq!(target_string(&session), "ab ab");
    assert_eq!(session.statistic.start_sample, 7);
}

#[test]
fn speed_is_zero_without_correct_keys() {
    let mut session = session_on(&["ab"], &["ab"]);
    session.press_key('x', 1000);
    let state = session.current_state(60000);
    assert_eq!(state.speed_tenths, 0);
    assert_eq!(state.errors, 1);
}

#[test]
fn speed_in_tenths_per_minute() {
    let mut statistic = TypingStatistic::new(0);
    statistic.start_sample(1000);
    statistic.key_pressed('a', true, 1500);
    statistic.key_pressed('b', true, 2000);
    statistic.key_pressed('c', true, 3000);
    // three keys in 40 seconds: 4.5 per minute
    assert_eq!(statistic.get_current_state(41000).speed_tenths, 45);
    assert_eq!(statistic.get_current_state(1000).speed_tenths, 0);
    assert_eq!(statistic.get_current_state(500).speed_tenths, 0);
    // three keys in 7 seconds: 25.71 per minute, rounded down
    assert_eq!(statistic.get_current_state(8000).speed_tenths, 257);
}

#[test]
fn timings_measure_since_previous_key() {
    let mut statistic = TypingStatistic::new(0);
    statistic.start_sample(100);
    statistic.key_pressed('a', true, 250);
    statistic.key_pressed('x', false, 300);
    statistic.key_pressed('a', true, 420);
    assert_eq!(statistic.key_timings.get(&('a' as u32)), Some(&vec![150, 120]));
    assert_eq!(statistic.key_errors.get(&('x' as u32)), Some(&1));
    assert_eq!(statistic.key_count, 2);
    assert_eq!(statistic.errors_count, 1);
    assert!(!statistic.is_finished());
}

#[test]
fn finishing_archives_and_resets() {
    let mut statistic = TypingStatistic::new(0);
    assert!(statistic.is_finished());
    statistic.start_sample(10);
    statistic.key_pressed('a', true, 30);
    statistic.key_pressed('b', false, 40);
    statistic.finish_sample(110);
    assert!(statistic.is_finished());
    assert_eq!(statistic.samples.len(), 1);
    let sample = &statistic.samples[0];
    assert_eq!(sample.start_time, 10);
    assert_eq!(sample.time, 100_000);
    assert_eq!(sample.length, 1);
    assert_eq!(sample.errors, 1);
    assert_eq!(sample.key_timings.get(&('a' as u32)), Some(&vec![20]));
    assert_eq!(statistic.key_count, 0);
    assert_eq!(statistic.errors_count, 0);
    assert!(statistic.key_timings.is_empty());
    assert!(statistic.key_errors.is_empty());
    assert_eq!(statistic.start_sample, 110);
}

#[test]
fn sample_keeps_its_fields() {
    let mut errors = HashMap::new();
    errors.insert('q' as u32, 2usize);
    let sample = SampleStatistic::new(5, HashMap::new(), errors, 3, 9, 2);
    assert_eq!(sample.start_time, 5);
    assert_eq!(sample.key_errors.get(&('q' as u32)), Some(&2));
    assert_eq!(sample.length, 3);
    assert_eq!(sample.time, 9);
    assert_eq!(sample.errors, 2);
}

#[test]
fn styled_text_shows_spaces_and_status() {
    let mut session = session_on(&["ab"], &["a", "b"]);
    session.press_key('a', 1);
    session.press_key('x', 2);
    let styled = session.get_styled_text();
    assert_eq!(
        styled,
        vec![
            AttributedLetter::new('a', TextColor::Correct),
            AttributedLetter::new('_', TextColor::Incorrect),
            AttributedLetter::new('b', TextColor::Untyped),
        ]
    );
}

#[test]
fn attributed_text_drops_colours() {
    let text = AttributedText(vec![
        AttributedLetter::new('h', TextColor::Correct),
        AttributedLetter::new('_', TextColor::Untyped),
        AttributedLetter::new('é', TextColor::Incorrect),
    ]);
    assert_eq!(text.to_string(), "h_é");
    assert_eq!(AttributedText(vec![]).to_string(), "");
}

#[test]
fn each_status_has_its_colour() {
    assert_eq!(color_for(Pressed::Pressed), TextColor::Correct);
    assert_eq!(color_for(Pressed::NotPressed), TextColor::Untyped);
    assert_eq!(color_for(Pressed::WrongPressed), TextColor::Incorrect);
}

#[test]
fn default_status_is_untyped() {
    assert_eq!(Pressed::default(), Pressed::NotPressed);
}

#[test]
fn starting_a_sample_clears_it() {
    let mut statistic = TypingStatistic::new(0);
    statistic.start_sample(10);
    statistic.key_pressed('a', true, 20);
    statistic.key_pressed('b', false, 30);
    statistic.start_sample(50);
    assert_eq!(statistic.key_count, 0);
    assert_eq!(statistic.errors_count, 0);
    assert!(statistic.key_timings.is_empty());
    assert!(statistic.key_errors.is_empty());
    assert_eq!(statistic.start_sample, 50);
    assert!(statistic.samples.is_empty());
}

#[test]
fn repeated_miss_restarts_the_key_timer() {
    let mut session = session_on(&["ab"], &["ab"]);
    session.press_key('x', 100);
    session.press_key('y', 250);
    session.press_key('a', 400);
    assert_eq!(session.statistic.key_timings.get(&('a' as u32)), Some(&vec![150]));
    assert_eq!(session.statistic.key_errors.get(&('a' as u32)), Some(&1));
    assert_eq!(session.statistic.key_errors.get(&('x' as u32)), None);
}
