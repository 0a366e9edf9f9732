//! The data behind the overlay's widgets: what each widget shows and its
//! builder-style configuration.  Drawing them into a terminal buffer is
//! presentation and lives outside the library.

use vstd::prelude::*;

verus! {

/// The query input widget.
#[derive(Debug)]
pub struct InputBox<'a> {
    pub content: &'a str,
    pub title: &'a str,
    pub focused: bool,
}

impl<'a> InputBox<'a> {
    /// An input box over `content`, titled `Query` and focused.
    pub fn new(content: &'a str) -> (r: Self)
        ensures
            r.content@ == content@,
            r.title@ == "Query"@,
            r.focused == true,
    {
        InputBox { content, title: "Query", focused: true }
    }

    /// The same box under another title.
    pub fn title(self, title: &'a str) -> (r: Self)
        ensures
            r.content@ == self.content@,
            r.title@ == title@,
            r.focused == self.focused,
    {
        InputBox { title, ..self }
    }

    /// The same box with focus set.
    pub fn focused(self, focused: bool) -> (r: Self)
        ensures
            r.content@ == self.content@,
            r.title@ == self.title@,
            r.focused == focused,
    {
        InputBox { focused, ..self }
    }
}

/// The ten spinner glyphs, by frame position.
pub open spec fn spinner_glyph(i: int) -> Seq<char> {
    if i == 0 {
        "⠋"@
    } else if i == 1 {
        "⠙"@
    } else if i == 2 {
        "⠹"@
    } else if i == 3 {
        "⠸"@
    } else if i == 4 {
        "⠼"@
    } else if i == 5 {
        "⠴"@
    } else if i == 6 {
        "⠦"@
    } else if i == 7 {
        "⠧"@
    } else if i == 8 {
        "⠇"@
    } else {
        "⠏"@
    }
}

/// The progress animation shown while a stream is in flight.
#[derive(Debug)]
pub struct ThinkingAnimation {
    pub frame: u8,
}

impl ThinkingAnimation {
    /// The animation at a given frame counter.
    pub fn new(frame: u8) -> (r: Self)
        ensures
            r.frame == frame,
    {
        ThinkingAnimation { frame }
    }

    /// The spinner glyph for the current frame, cycling through ten.
    pub fn get_animation_char(&self) -> (r: &'static str)
        ensures
            r@ == spinner_glyph((self.frame % 10) as int),
    {
        match self.frame % 10 {
            0 => "⠋",
            1 => "⠙",
            2 => "⠹",
            3 => "⠸",
            4 => "⠼",
            5 => "⠴",
            6 => "⠦",
            7 => "⠧",
            8 => "⠇",
            _ => "⠏",
        }
    }
}

/// The candidate-command review widget.
#[derive(Debug)]
pub struct CommandReview<'a> {
    pub command: &'a str,
    pub explanation: Option<&'a str>,
    pub show_explanation: bool,
}

impl<'a> CommandReview<'a> {
    /// A review of `command`, with no explanation attached.
    pub fn new(command: &'a str) -> (r: Self)
        ensures
            r.command@ == command@,
            r.explanation is None,
            r.show_explanation == false,
    {
        CommandReview { command, explanation: None, show_explanation: false }
    }

    /// The same review with an explanation attached and its visibility
    /// set.
    pub fn explanation(self, explanation: &'a str, show: bool) -> (r: Self)
        ensures
            r.command@ == self.command@,
            r.explanation matches Some(e) && e@ == explanation@,
            r.show_explanation == show,
    {
        CommandReview { explanation: Some(explanation), show_explanation: show, ..self }
    }
}

/// The scrollable patch view.
#[derive(Debug)]
pub struct DiffView<'a> {
    pub diff_content: &'a str,
    pub scroll_position: u16,
}

impl<'a> DiffView<'a> {
    /// A view over `diff_content` at a scroll offset.
    pub fn new(diff_content: &'a str, scroll_position: u16) -> (r: Self)
        ensures
            r.diff_content@ == diff_content@,
            r.scroll_position == scroll_position,
    {
        DiffView { diff_content, scroll_position }
    }
}

/// The static key-hint footer.
#[derive(Debug)]
pub struct HelpFooter;

} // verus!
