//! The interactive renderer's mode state machine.  One owned state value
//! is threaded through the event loop; transitions are driven only by
//! discrete key events and by the streaming subsystem signalling
//! completion — never by a timer.  The full transition relation is spec
//! here, every key handler is proved against it, and the laws the modes
//! obey (the Tab toggle round trip, the saturating scroll) are proved from
//! the relation alone.

use vstd::prelude::*;

use crate::text::{pop_char, push_char};

verus! {

/// The four interaction modes; `Input` is initial, and exit is possible
/// from every mode through cancellation.
#[derive(Debug, Clone, PartialEq, Eq, Structural)]
pub enum AppMode {
    /// The user is typing a query.
    Input,
    /// A stream is in flight; only the interrupt key is recognized.
    Thinking,
    /// A candidate command is shown for acceptance or rejection.
    Review,
    /// A patch is shown for acceptance or rejection, with scrolling.
    Diff,
}

/// One line of the session transcript.
#[derive(Debug, Clone)]
pub struct ChatMessage {
    pub role: String,
    pub content: String,
}

/// The single owned state of the interactive overlay.
#[derive(Debug)]
pub struct AppState {
    pub input_buffer: String,
    pub mode: AppMode,
    pub chat_history: Vec<ChatMessage>,
    pub suggested_command: Option<String>,
    pub command_explanation: Option<String>,
    pub diff_content: Option<String>,
    pub scroll_position: u16,
    pub show_explanation: bool,
    pub should_process_query: bool,
    pub should_execute: bool,
    pub should_apply_patch: bool,
    pub animation_frame: u8,
    pub initial_buffer: String,
    pub cursor_pos: usize,
}

/// The key events the state machine reacts to; everything else is
/// `Other`.
#[derive(Debug, Clone, Copy, PartialEq, Eq, Structural)]
pub enum KeyInput {
    Char(char),
    Enter,
    Esc,
    Tab,
    Backspace,
    Up,
    Down,
    Other,
}

/// Whether `key` with the control flag is the interrupt chord, recognized
/// in every mode.
pub open spec fn is_interrupt(key: KeyInput, ctrl: bool) -> bool {
    ctrl && key == KeyInput::Char('c')
}

/// Everything of the state except the input buffer is unchanged.
pub open spec fn same_but_buffer(pre: AppState, post: AppState) -> bool {
    &&& post.mode == pre.mode
    &&& post.chat_history == pre.chat_history
    &&& post.suggested_command == pre.suggested_command
    &&& post.command_explanation == pre.command_explanation
    &&& post.diff_content == pre.diff_content
    &&& post.scroll_position == pre.scroll_position
    &&& post.show_explanation == pre.show_explanation
    &&& post.should_process_query == pre.should_process_query
    &&& post.should_execute == pre.should_execute
    &&& post.should_apply_patch == pre.should_apply_patch
    &&& post.animation_frame == pre.animation_frame
    &&& post.initial_buffer == pre.initial_buffer
    &&& post.cursor_pos == pre.cursor_pos
}

/// Everything of the state except mode and the transition flags is
/// unchanged.
pub open spec fn same_but_flags(pre: AppState, post: AppState) -> bool {
    &&& post.input_buffer == pre.input_buffer
    &&& post.chat_history == pre.chat_history
    &&& post.suggested_command == pre.suggested_command
    &&& post.command_explanation == pre.command_explanation
    &&& post.diff_content == pre.diff_content
    &&& post.scroll_position == pre.scroll_position
    &&& post.animation_frame == pre.animation_frame
    &&& post.initial_buffer == pre.initial_buffer
    &&& post.cursor_pos == pre.cursor_pos
}

/// The transition relation of the mode state machine: what one key event
/// does to the state and whether the overlay exits.
pub open spec fn key_transition(
    pre: AppState,
    key: KeyInput,
    ctrl: bool,
    post: AppState,
    exit: bool,
) -> bool {
    if is_interrupt(key, ctrl) {
        post == pre && exit
    } else {
        match pre.mode {
            AppMode::Input => match key {
                KeyInput::Esc => post == pre && exit,
                KeyInput::Enter => if pre.input_buffer@.len() > 0 {
                    &&& post.mode == AppMode::Thinking
                    &&& post.should_process_query == true
                    &&& post.should_execute == pre.should_execute
                    &&& post.should_apply_patch == pre.should_apply_patch
                    &&& post.show_explanation == pre.show_explanation
                    &&& same_but_flags(pre, post)
                    &&& !exit
                } else {
                    post == pre && !exit
                },
                KeyInput::Char(c) => {
                    &&& post.input_buffer@ == pre.input_buffer@.push(c)
                    &&& same_but_buffer(pre, post)
                    &&& !exit
                },
                KeyInput::Backspace => {
                    &&& (pre.input_buffer@.len() == 0 ==> post.input_buffer@ == pre.input_buffer@)
                    &&& (pre.input_buffer@.len() > 0 ==> post.input_buffer@
                        == pre.input_buffer@.drop_last())
                    &&& same_but_buffer(pre, post)
                    &&& !exit
                },
                _ => post == pre && !exit,
            },
            AppMode::Thinking => post == pre && !exit,
            AppMode::Review => match key {
                KeyInput::Esc => post == pre && exit,
                KeyInput::Enter => {
                    &&& post.mode == pre.mode
                    &&& post.should_execute == true
                    &&& post.should_process_query == pre.should_process_query
                    &&& post.should_apply_patch == pre.should_apply_patch
                    &&& post.show_explanation == pre.show_explanation
                    &&& same_but_flags(pre, post)
                    &&& exit
                },
                KeyInput::Tab => {
                    &&& post.mode == pre.mode
                    &&& post.show_explanation == !pre.show_explanation
                    &&& post.should_process_query == pre.should_process_query
                    &&& post.should_execute == pre.should_execute
                    &&& post.should_apply_patch == pre.should_apply_patch
                    &&& same_but_flags(pre, post)
                    &&& !exit
                },
                _ => post == pre && !exit,
            },
            AppMode::Diff => match key {
                KeyInput::Esc => post == pre && exit,
                KeyInput::Enter => {
                    &&& post.mode == pre.mode
                    &&& post.should_apply_patch == true
                    &&& post.should_process_query == pre.should_process_query
                    &&& post.should_execute == pre.should_execute
                    &&& post.show_explanation == pre.show_explanation
                    &&& same_but_flags(pre, post)
                    &&& exit
                },
                KeyInput::Up => {
                    &&& post.scroll_position == (if pre.scroll_position > 0 {
                        pre.scroll_position - 1
                    } else {
                        0
                    })
                    &&& scroll_frame(pre, post)
                    &&& !exit
                },
                KeyInput::Down => {
                    &&& post.scroll_position == (if pre.scroll_position < 0xffff {
                        pre.scroll_position + 1
                    } else {
                        0xffff
                    })
                    &&& scroll_frame(pre, post)
                    &&& !exit
                },
                _ => post == pre && !exit,
            },
        }
    }
}

/// Everything of the state except the scroll offset is unchanged.
pub open spec fn scroll_frame(pre: AppState, post: AppState) -> bool {
    &&& post.mode == pre.mode
    &&& post.input_buffer == pre.input_buffer
    &&& post.chat_history == pre.chat_history
    &&& post.suggested_command == pre.suggested_command
    &&& post.command_explanation == pre.command_explanation
    &&& post.diff_content == pre.diff_content
    &&& post.show_explanation == pre.show_explanation
    &&& post.should_process_query == pre.should_process_query
    &&& post.should_execute == pre.should_execute
    &&& post.should_apply_patch == pre.should_apply_patch
    &&& post.animation_frame == pre.animation_frame
    &&& post.initial_buffer == pre.initial_buffer
    &&& post.cursor_pos == pre.cursor_pos
}

/// Applies one key event to the state, exactly as `key_transition`
/// states; the result says whether the overlay exits.
pub fn handle_key_event(state: &mut AppState, key: KeyInput, ctrl: bool) -> (exit: bool)
    ensures
        key_transition(*old(state), key, ctrl, *final(state), exit),
{
    if ctrl {
        if key == KeyInput::Char('c') {
            return true;
        }
    }
    match state.mode {
        AppMode::Input => match key {
            KeyInput::Esc => true,
            KeyInput::Enter => {
                if !state.input_buffer.as_str().is_empty() {
                    state.mode = AppMode::Thinking;
                    state.should_process_query = true;
                }
                false
            },
            KeyInput::Char(c) => {
                push_char(&mut state.input_buffer, c);
                false
            },
            KeyInput::Backspace => {
                let _ = pop_char(&mut state.input_buffer);
                false
            },
            _ => false,
        },
        AppMode::Thinking => false,
        AppMode::Review => match key {
            KeyInput::Esc => true,
            KeyInput::Enter => {
                state.should_execute = true;
                true
            },
            KeyInput::Tab => {
                state.show_explanation = !state.show_explanation;
                false
            },
            _ => false,
        },
        AppMode::Diff => match key {
            KeyInput::Esc => true,
            KeyInput::Enter => {
                state.should_apply_patch = true;
                true
            },
            KeyInput::Up => {
                if state.scroll_position > 0 {
                    state.scroll_position = state.scroll_position - 1;
                }
                false
            },
            KeyInput::Down => {
                if state.scroll_position < 0xffff {
                    state.scroll_position = state.scroll_position + 1;
                }
                false
            },
            _ => false,
        },
    }
}

/// Toggling the explanation twice in `Review` brings the explanation flag
/// — indeed the whole state — back to where it started, and never exits.
pub proof fn lemma_tab_toggle_round_trip(
    s0: AppState,
    s1: AppState,
    s2: AppState,
    e1: bool,
    e2: bool,
)
    requires
        s0.mode is Review,
        key_transition(s0, KeyInput::Tab, false, s1, e1),
        key_transition(s1, KeyInput::Tab, false, s2, e2),
    ensures
        s2.show_explanation == s0.show_explanation,
        !e1,
        !e2,
{
}

/// Scrolling up at the top of the diff leaves the offset at the top: the
/// scroll saturates and is never negative.
pub proof fn lemma_scroll_up_saturates(s0: AppState, s1: AppState, e: bool)
    requires
        s0.mode is Diff,
        s0.scroll_position == 0,
        key_transition(s0, KeyInput::Up, false, s1, e),
    ensures
        s1.scroll_position == 0,
        !e,
{
}

impl AppState {
    /// The initial state of one overlay invocation.
    pub fn new(initial_buffer: String, cursor_pos: usize) -> (r: Self)
        ensures
            r.input_buffer@ == Seq::<char>::empty(),
            r.mode == AppMode::Input,
            r.chat_history@ == Seq::<ChatMessage>::empty(),
            r.suggested_command is None,
            r.command_explanation is None,
            r.diff_content is None,
            r.scroll_position == 0,
            r.show_explanation == false,
            r.should_process_query == false,
            r.should_execute == false,
            r.should_apply_patch == false,
            r.animation_frame == 0,
            r.initial_buffer == initial_buffer,
            r.cursor_pos == cursor_pos,
    {
        AppState {
            input_buffer: String::new(),
            mode: AppMode::Input,
            chat_history: Vec::new(),
            suggested_command: None,
            command_explanation: None,
            diff_content: None,
            scroll_position: 0,
            show_explanation: false,
            should_process_query: false,
            should_execute: false,
            should_apply_patch: false,
            animation_frame: 0,
            initial_buffer,
            cursor_pos,
        }
    }

    /// Appends one line to the transcript.
    pub fn add_message(&mut self, role: &str, content: &str)
        ensures
            final(self).chat_history@.len() == old(self).chat_history@.len() + 1,
            forall|i: int|
                0 <= i < old(self).chat_history@.len() ==> final(self).chat_history@[i] == old(
                    self,
                ).chat_history@[i],
            final(self).chat_history@.last().role@ == role@,
            final(self).chat_history@.last().content@ == content@,
            final(self).input_buffer == old(self).input_buffer,
            final(self).mode == old(self).mode,
            final(self).suggested_command == old(self).suggested_command,
            final(self).command_explanation == old(self).command_explanation,
            final(self).diff_content == old(self).diff_content,
            final(self).scroll_position == old(self).scroll_position,
            final(self).show_explanation == old(self).show_explanation,
            final(self).should_process_query == old(self).should_process_query,
            final(self).should_execute == old(self).should_execute,
            final(self).should_apply_patch == old(self).should_apply_patch,
            final(self).animation_frame == old(self).animation_frame,
            final(self).initial_buffer == old(self).initial_buffer,
            final(self).cursor_pos == old(self).cursor_pos,
    {
        self.chat_history.push(ChatMessage { role: role.to_owned(), content: content.to_owned() });
    }

    /// Clears everything a finished interaction left behind, returning to
    /// `Input`; the typed buffer and the transcript survive.
    pub fn reset_for_new_query(&mut self)
        ensures
            final(self).mode == AppMode::Input,
            final(self).suggested_command is None,
            final(self).command_explanation is None,
            final(self).diff_content is None,
            final(self).scroll_position == 0,
            final(self).show_explanation == false,
            final(self).should_process_query == false,
            final(self).should_execute == false,
            final(self).should_apply_patch == false,
            final(self).input_buffer == old(self).input_buffer,
            final(self).chat_history == old(self).chat_history,
            final(self).animation_frame == old(self).animation_frame,
            final(self).initial_buffer == old(self).initial_buffer,
            final(self).cursor_pos == old(self).cursor_pos,
    {
        self.mode = AppMode::Input;
        self.suggested_command = None;
        self.command_explanation = None;
        self.diff_content = None;
        self.scroll_position = 0;
        self.show_explanation = false;
        self.should_process_query = false;
        self.should_execute = false;
        self.should_apply_patch = false;
    }
}

/// The command echoed back by the placeholder query processor.
pub open spec fn dummy_command_text(query: Seq<char>) -> Seq<char> {
    "echo 'You asked: "@ + query + "'"@
}

/// The explanation shown beside the placeholder command.
pub open spec fn dummy_explanation_text(query: Seq<char>) -> Seq<char> {
    "This is a dummy command that echoes your query: '"@ + query + "'"@
}

/// The placeholder query processor: echoes the typed query as a command,
/// moves to `Review`, and records both sides in the transcript.
pub fn process_dummy_query(state: &mut AppState)
    ensures
        final(state).mode == AppMode::Review,
        final(state).suggested_command matches Some(c) && c@ == dummy_command_text(
            old(state).input_buffer@,
        ),
        final(state).command_explanation matches Some(e) && e@ == dummy_explanation_text(
            old(state).input_buffer@,
        ),
        final(state).chat_history@.len() == old(state).chat_history@.len() + 2,
        forall|i: int|
            0 <= i < old(state).chat_history@.len() ==> final(state).chat_history@[i] == old(
                state,
            ).chat_history@[i],
        final(state).chat_history@[final(state).chat_history@.len() - 2].role@ == "user"@,
        final(state).chat_history@[final(state).chat_history@.len() - 2].content@ == old(
            state,
        ).input_buffer@,
        final(state).chat_history@.last().role@ == "assistant"@,
        final(state).chat_history@.last().content@ == dummy_command_text(
            old(state).input_buffer@,
        ),
        final(state).input_buffer == old(state).input_buffer,
        final(state).diff_content == old(state).diff_content,
        final(state).scroll_position == old(state).scroll_position,
        final(state).show_explanation == old(state).show_explanation,
        final(state).should_process_query == old(state).should_process_query,
        final(state).should_execute == old(state).should_execute,
        final(state).should_apply_patch == old(state).should_apply_patch,
        final(state).animation_frame == old(state).animation_frame,
        final(state).initial_buffer == old(state).initial_buffer,
        final(state).cursor_pos == old(state).cursor_pos,
{
    let mut dummy_command = String::new();
    dummy_command.append("echo 'You asked: ");
    dummy_command.append(state.input_buffer.as_str());
    dummy_command.append("'");
    let mut dummy_explanation = String::new();
    dummy_explanation.append("This is a dummy command that echoes your query: '");
    dummy_explanation.append(state.input_buffer.as_str());
    dummy_explanation.append("'");
    let user_query = state.input_buffer.clone();
    let assistant_response = dummy_command.clone();
    state.suggested_command = Some(dummy_command);
    state.command_explanation = Some(dummy_explanation);
    state.mode = AppMode::Review;
    state.add_message("user", user_query.as_str());
    state.add_message("assistant", assistant_response.as_str());
}

} // verus!
