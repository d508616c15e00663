use speedreader::input::{InputKey, ReaderAction};
use speedreader::reader::{calc_wait, Reader};
use speedreader::settings::Settings;
use speedreader::text::text_to_sv;

fn reader(text: &str, should_loop: bool) -> Reader {
    Reader::new(400, text, should_loop)
}

#[test]
fn pacing_formula_at_400() {
    // floor(1000 / ceil(400 / 60)) = floor(1000 / 7)
    assert_eq!(calc_wait(400), 142);
}

#[test]
fn pacing_formula_other_rates() {
    assert_eq!(calc_wait(60), 1000);
    assert_eq!(calc_wait(61), 500);
    assert_eq!(calc_wait(600), 100);
}

#[test]
fn new_keeps_one_millisecond_less() {
    let r = reader("a b", false);
    assert_eq!(r.wait, 141);
    assert!(r.paused);
    assert!(!r.exit);
    assert_eq!(r.settings.wpm, 400);
    assert_eq!(r.settings.word_index, 0);
    assert_eq!(r.settings.words, text_to_sv("a b"));
}

#[test]
fn construction_rejects_zero_rate() {
    assert!(Reader::try_new(0, "a b", false).is_none());
}

#[test]
fn construction_rejects_absurd_rate() {
    // ceil(12001 / 60) = 201, so the interval floor(1000 / 201) = 4 < 5.
    assert!(Reader::try_new(12001, "a b", false).is_none());
}

#[test]
fn construction_accepts_ordinary_rate() {
    let r = Reader::try_new(400, "a b", false).unwrap();
    assert_eq!(r.wait, 141);
}

#[test]
fn advance_past_end_without_loop_wraps_and_pauses() {
    let mut r = reader("a b c", false);
    r.settings.word_index = 2;
    r.paused = false;
    r.update_word();
    assert_eq!(r.settings.word_index, 0);
    assert!(r.paused);
}

#[test]
fn advance_past_end_with_loop_wraps_silently() {
    let mut r = reader("a b c", true);
    r.settings.word_index = 2;
    r.paused = false;
    r.update_word();
    assert_eq!(r.settings.word_index, 0);
    assert!(!r.paused);
}

#[test]
fn advance_inside_list_keeps_pause_state() {
    let mut r = reader("a b c", false);
    r.paused = false;
    r.update_word();
    assert_eq!(r.settings.word_index, 1);
    assert!(!r.paused);
}

#[test]
fn back_steps_one_and_pauses() {
    let mut r = reader("a b c", false);
    r.settings.word_index = 2;
    r.paused = false;
    r.back();
    assert_eq!(r.settings.word_index, 1);
    assert!(r.paused);
}

#[test]
fn back_clamps_at_zero() {
    let mut r = reader("a b c", false);
    r.back();
    assert_eq!(r.settings.word_index, 0);
    assert!(r.paused);
}

#[test]
fn back_sentence_lands_after_nearest_period() {
    let mut r = reader("a. b c d. e", false);
    r.settings.word_index = 5;
    r.back_sentence();
    assert_eq!(r.settings.word_index, 4);
    assert!(r.paused);
}

#[test]
fn back_sentence_without_period_goes_to_start() {
    let mut r = reader("a b c", false);
    r.settings.word_index = 2;
    r.back_sentence();
    assert_eq!(r.settings.word_index, 0);
    assert!(r.paused);
}

#[test]
fn back_sentence_at_start_stays() {
    let mut r = reader("a. b", false);
    r.back_sentence();
    assert_eq!(r.settings.word_index, 0);
}

#[test]
fn toggle_pause_resume_at_last_word_restarts() {
    let mut r = reader("a b c", false);
    r.settings.word_index = 2;
    r.toggle_pause();
    assert_eq!(r.settings.word_index, 0);
    assert!(!r.paused);
}

#[test]
fn toggle_pause_elsewhere_keeps_position() {
    let mut r = reader("a b c", false);
    r.settings.word_index = 1;
    r.toggle_pause();
    assert_eq!(r.settings.word_index, 1);
    assert!(!r.paused);
    r.toggle_pause();
    assert!(r.paused);
    assert_eq!(r.settings.word_index, 1);
}

#[test]
fn curr_word_follows_index() {
    let mut r = reader("alpha beta", false);
    assert_eq!(r.curr_word(), "alpha");
    r.settings.word_index = 1;
    assert_eq!(r.curr_word(), "beta");
}

#[test]
fn update_wpm_rederives_interval() {
    let mut r = reader("a b", false);
    r.settings.wpm = 600;
    r.update_wpm();
    assert_eq!(r.wait, 100);
}

#[test]
fn quit_raises_exit_flag() {
    let mut r = reader("a b", false);
    r.quit();
    assert!(r.exit);
}

#[test]
fn startup_from_persisted_settings_has_no_quirk() {
    let s = Settings {
        wpm: 400,
        word_index: 0,
        words: text_to_sv("x y"),
        should_loop: true,
    };
    let r = Reader::startup(Some(s));
    assert_eq!(r.wait, 142);
    assert!(r.paused);
    assert!(!r.exit);
    assert!(r.settings.should_loop);
    assert_eq!(r.settings.words, text_to_sv("x y"));
}

#[test]
fn empty_word_list_advances_safely() {
    let mut r = reader("", false);
    r.paused = false;
    r.update_word();
    assert_eq!(r.settings.word_index, 0);
    assert!(r.paused);
}

#[test]
fn empty_word_list_toggles_safely() {
    let mut r = reader("", false);
    r.toggle_pause();
    assert!(!r.paused);
    assert_eq!(r.settings.word_index, 0);
}

#[test]
fn handle_key_escape_opens_settings() {
    let mut r = reader("a b", false);
    assert_eq!(r.handle_key(InputKey::Esc), ReaderAction::OpenSettings);
    assert!(!r.exit);
}

#[test]
fn handle_key_q_exits_and_requests_save() {
    let mut r = reader("a b", false);
    assert_eq!(r.handle_key(InputKey::Q), ReaderAction::Save);
    assert!(r.exit);
}

#[test]
fn handle_key_s_requests_save_only() {
    let mut r = reader("a b", false);
    assert_eq!(r.handle_key(InputKey::S), ReaderAction::Save);
    assert!(!r.exit);
}

#[test]
fn handle_key_b_steps_back() {
    let mut r = reader("a b c", false);
    r.settings.word_index = 2;
    assert_eq!(r.handle_key(InputKey::B), ReaderAction::NoAction);
    assert_eq!(r.settings.word_index, 1);
    assert!(r.paused);
}

#[test]
fn handle_key_capital_b_steps_back_a_sentence() {
    let mut r = reader("a. b c", false);
    r.settings.word_index = 3;
    assert_eq!(r.handle_key(InputKey::CapitalB), ReaderAction::NoAction);
    assert_eq!(r.settings.word_index, 1);
}

#[test]
fn handle_key_other_changes_nothing() {
    let mut r = reader("a b", false);
    r.settings.word_index = 1;
    assert_eq!(r.handle_key(InputKey::Other), ReaderAction::NoAction);
    assert_eq!(r.settings.word_index, 1);
    assert!(r.paused);
}

#[test]
fn begin_and_end_settings_session() {
    let mut r = reader("a b", false);
    r.paused = false;
    let mut menu = r.begin_settings();
    assert!(r.paused);
    assert_eq!(menu.index, 0);
    assert!(!menu.view_words);
    menu.increase();
    r.end_settings(menu);
    assert_eq!(r.settings.wpm, 410);
    // ceil(410 / 60) = 7, so the full interval (no quirk) comes back
    assert_eq!(r.wait, 142);
}
