//! The mode state machine: transitions per mode, the Tab toggle round
//! trip, saturating scroll, and the widget builders.

use aether::components::{CommandReview, DiffView, InputBox, ThinkingAnimation};
use aether::state::{handle_key_event, process_dummy_query, AppMode, AppState, KeyInput};

fn fresh_state() -> AppState {
    AppState::new(String::new(), 0)
}

#[test]
fn test_initial_state() {
    let state = fresh_state();
    assert_eq!(state.mode, AppMode::Input);
    assert!(state.input_buffer.is_empty());
    assert!(state.chat_history.is_empty());
    assert_eq!(state.scroll_position, 0);
    assert!(!state.show_explanation);
}

#[test]
fn test_typing_and_backspace() {
    let mut state = fresh_state();
    assert!(!handle_key_event(&mut state, KeyInput::Char('l'), false));
    assert!(!handle_key_event(&mut state, KeyInput::Char('s'), false));
    assert_eq!(state.input_buffer, "ls");
    assert!(!handle_key_event(&mut state, KeyInput::Backspace, false));
    assert_eq!(state.input_buffer, "l");
    assert!(!handle_key_event(&mut state, KeyInput::Backspace, false));
    assert!(!handle_key_event(&mut state, KeyInput::Backspace, false));
    assert_eq!(state.input_buffer, "");
}

#[test]
fn test_enter_with_text_starts_thinking() {
    let mut state = fresh_state();
    handle_key_event(&mut state, KeyInput::Char('x'), false);
    assert!(!handle_key_event(&mut state, KeyInput::Enter, false));
    assert_eq!(state.mode, AppMode::Thinking);
    assert!(state.should_process_query);
}

#[test]
fn test_enter_with_empty_buffer_stays_in_input() {
    let mut state = fresh_state();
    assert!(!handle_key_event(&mut state, KeyInput::Enter, false));
    assert_eq!(state.mode, AppMode::Input);
    assert!(!state.should_process_query);
}

#[test]
fn test_escape_exits_from_input() {
    let mut state = fresh_state();
    assert!(handle_key_event(&mut state, KeyInput::Esc, false));
}

#[test]
fn test_interrupt_exits_from_every_mode() {
    for mode in [AppMode::Input, AppMode::Thinking, AppMode::Review, AppMode::Diff] {
        let mut state = fresh_state();
        state.mode = mode;
        assert!(handle_key_event(&mut state, KeyInput::Char('c'), true));
    }
}

#[test]
fn test_thinking_ignores_ordinary_keys() {
    let mut state = fresh_state();
    state.mode = AppMode::Thinking;
    assert!(!handle_key_event(&mut state, KeyInput::Char('q'), false));
    assert!(!handle_key_event(&mut state, KeyInput::Esc, false));
    assert_eq!(state.mode, AppMode::Thinking);
}

#[test]
fn test_review_enter_requests_execution_and_exits() {
    let mut state = fresh_state();
    state.mode = AppMode::Review;
    assert!(handle_key_event(&mut state, KeyInput::Enter, false));
    assert!(state.should_execute);
}

#[test]
fn test_review_tab_toggles_twice_back() {
    let mut state = fresh_state();
    state.mode = AppMode::Review;
    let before = state.show_explanation;
    assert!(!handle_key_event(&mut state, KeyInput::Tab, false));
    assert_eq!(state.show_explanation, !before);
    assert!(!handle_key_event(&mut state, KeyInput::Tab, false));
    assert_eq!(state.show_explanation, before);
}

#[test]
fn test_diff_scroll_saturates_at_zero() {
    let mut state = fresh_state();
    state.mode = AppMode::Diff;
    assert_eq!(state.scroll_position, 0);
    assert!(!handle_key_event(&mut state, KeyInput::Up, false));
    assert_eq!(state.scroll_position, 0);
    assert!(!handle_key_event(&mut state, KeyInput::Down, false));
    assert_eq!(state.scroll_position, 1);
    assert!(!handle_key_event(&mut state, KeyInput::Up, false));
    assert_eq!(state.scroll_position, 0);
}

#[test]
fn test_diff_enter_requests_patch_and_exits() {
    let mut state = fresh_state();
    state.mode = AppMode::Diff;
    assert!(handle_key_event(&mut state, KeyInput::Enter, false));
    assert!(state.should_apply_patch);
}

#[test]
fn test_process_dummy_query_moves_to_review() {
    let mut state = fresh_state();
    handle_key_event(&mut state, KeyInput::Char('h'), false);
    handle_key_event(&mut state, KeyInput::Char('i'), false);
    process_dummy_query(&mut state);
    assert_eq!(state.mode, AppMode::Review);
    assert_eq!(state.suggested_command.as_deref(), Some("echo 'You asked: hi'"));
    assert_eq!(state.chat_history.len(), 2);
    assert_eq!(state.chat_history[0].role, "user");
    assert_eq!(state.chat_history[0].content, "hi");
    assert_eq!(state.chat_history[1].role, "assistant");
    assert_eq!(state.chat_history[1].content, "echo 'You asked: hi'");
}

#[test]
fn test_add_message_and_reset() {
    let mut state = fresh_state();
    state.add_message("user", "hello");
    assert_eq!(state.chat_history.len(), 1);
    state.mode = AppMode::Review;
    state.suggested_command = Some("ls".to_string());
    state.show_explanation = true;
    state.scroll_position = 7;
    state.reset_for_new_query();
    assert_eq!(state.mode, AppMode::Input);
    assert!(state.suggested_command.is_none());
    assert!(!state.show_explanation);
    assert_eq!(state.scroll_position, 0);
    assert_eq!(state.chat_history.len(), 1);
}

#[test]
fn test_input_box_builder() {
    let widget = InputBox::new("query text").title("Ask").focused(false);
    assert_eq!(widget.content, "query text");
    assert_eq!(widget.title, "Ask");
    assert!(!widget.focused);
}

#[test]
fn test_thinking_animation_cycles() {
    let first = ThinkingAnimation::new(0).get_animation_char();
    let again = ThinkingAnimation::new(10).get_animation_char();
    assert_eq!(first, again);
    assert_eq!(ThinkingAnimation::new(3).get_animation_char(), "⠸");
}

#[test]
fn test_command_review_builder() {
    let review = CommandReview::new("ls -la").explanation("lists files", true);
    assert_eq!(review.command, "ls -la");
    assert_eq!(review.explanation, Some("lists files"));
    assert!(review.show_explanation);
}

#[test]
fn test_diff_view_builder() {
    let view = DiffView::new("+added\n-removed", 3);
    assert_eq!(view.diff_content, "+added\n-removed");
    assert_eq!(view.scroll_position, 3);
}
