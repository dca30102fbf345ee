//! The input router: which input mode the terminal is in, what the user has
//! typed as an address, the viewport, and what each input event asks the
//! program to do.
use vstd::prelude::*;

verus! {

/// How long the render loop waits for an input event, in milliseconds.
pub const POLL_INTERVAL_MS: u64 = 100;

/// The pause after each tick of the render loop, in milliseconds.
pub const TICK_DELAY_MS: u64 = 50;

/// A key, as far as the router tells keys apart.
#[derive(Clone, Copy, Debug, PartialEq, Eq, Structural)]
pub enum KeyInput {
    Char(char),
    Backspace,
    Enter,
    Esc,
    Other,
}

/// An input event: a resize to `(columns, rows)`, a key press (with whether
/// Control was held), or anything else.
#[derive(Clone, Copy, Debug, PartialEq, Eq, Structural)]
pub enum InputEvent {
    Resize(u16, u16),
    Key { code: KeyInput, ctrl: bool },
    Other,
}

/// What handling an event asks of the program around the router.
#[derive(Debug, PartialEq, Eq)]
pub enum Action {
    /// Nothing to do.
    Nothing,
    /// The viewport changed: clear the screen and draw it anew.
    Redraw,
    /// Address entry began: show the cursor.
    ShowCursor,
    /// Address entry was cancelled: hide the cursor.
    HideCursor,
    /// Bind the session's listening socket.
    Listen,
    /// Drop the session's connection.
    Disconnect,
    /// Address entry ended with this text: hide the cursor, parse the text,
    /// and dial it if it is an address.
    Submit(Vec<char>),
    /// Control-C: restore the terminal and stop.
    Interrupt,
}

/// The meaning of an [`Action`], with the submitted text as a sequence.
pub ghost enum Reaction {
    Nothing,
    Redraw,
    ShowCursor,
    HideCursor,
    Listen,
    Disconnect,
    Submit(Seq<char>),
    Interrupt,
}

impl View for Action {
    type V = Reaction;

    open spec fn view(&self) -> Reaction {
        match self {
            Action::Nothing => Reaction::Nothing,
            Action::Redraw => Reaction::Redraw,
            Action::ShowCursor => Reaction::ShowCursor,
            Action::HideCursor => Reaction::HideCursor,
            Action::Listen => Reaction::Listen,
            Action::Disconnect => Reaction::Disconnect,
            Action::Submit(text) => Reaction::Submit(text@),
            Action::Interrupt => Reaction::Interrupt,
        }
    }
}

/// The router's state: the viewport, whether an address is being entered,
/// and the text typed so far.
pub ghost struct InputState {
    pub size: (u16, u16),
    pub entering: bool,
    pub buffer: Seq<char>,
}

impl InputState {
    /// The buffer holds text only while an address is being entered.
    pub open spec fn wf(self) -> bool {
        !self.entering ==> self.buffer.len() == 0
    }

    pub open spec fn with_size(self, size: (u16, u16)) -> InputState {
        InputState { size, entering: self.entering, buffer: self.buffer }
    }

    pub open spec fn with_mode(self, entering: bool, buffer: Seq<char>) -> InputState {
        InputState { size: self.size, entering, buffer }
    }
}

/// `buffer` after Backspace: its last character removed, or left empty.
pub open spec fn erase_last(buffer: Seq<char>) -> Seq<char> {
    if buffer.len() == 0 {
        buffer
    } else {
        buffer.drop_last()
    }
}

/// The transition table of the router: the state after `e`, and what `e`
/// asks of the program.
///
/// Control-C interrupts in either mode. A resize records the new viewport in
/// either mode. While entering an address, characters are appended,
/// Backspace erases, and Enter or Esc return to normal mode with an empty
/// buffer (Enter hands the text over). In normal mode `c` starts address
/// entry, `l` asks to listen and `Q` asks to disconnect.
pub open spec fn step(s: InputState, e: InputEvent) -> (InputState, Reaction) {
    match e {
        InputEvent::Resize(w, h) => (s.with_size((w, h)), Reaction::Redraw),
        InputEvent::Key { code, ctrl } => {
            if ctrl && code == KeyInput::Char('c') {
                (s, Reaction::Interrupt)
            } else if s.entering {
                match code {
                    KeyInput::Char(c) => (s.with_mode(true, s.buffer.push(c)), Reaction::Nothing),
                    KeyInput::Backspace => (
                        s.with_mode(true, erase_last(s.buffer)),
                        Reaction::Nothing,
                    ),
                    KeyInput::Enter => (
                        s.with_mode(false, Seq::empty()),
                        Reaction::Submit(s.buffer),
                    ),
                    KeyInput::Esc => (s.with_mode(false, Seq::empty()), Reaction::HideCursor),
                    KeyInput::Other => (s, Reaction::Nothing),
                }
            } else {
                match code {
                    KeyInput::Char('c') => (s.with_mode(true, Seq::empty()), Reaction::ShowCursor),
                    KeyInput::Char('l') => (s, Reaction::Listen),
                    KeyInput::Char('Q') => (s, Reaction::Disconnect),
                    _ => (s, Reaction::Nothing),
                }
            }
        },
        InputEvent::Other => (s, Reaction::Nothing),
    }
}

/// The router's state after handling `es` in order, starting from `s`.
pub open spec fn run(s: InputState, es: Seq<InputEvent>) -> InputState
    decreases es.len(),
{
    if es.len() == 0 {
        s
    } else {
        step(run(s, es.drop_last()), es.last()).0
    }
}

/// A key press that edits the address: a character typed without Control,
/// or Backspace.
pub open spec fn is_edit(e: InputEvent) -> bool {
    match e {
        InputEvent::Key { code: KeyInput::Char(_), ctrl: false } => true,
        InputEvent::Key { code: KeyInput::Backspace, ctrl: false } => true,
        _ => false,
    }
}

/// `buffer` with the edits `es` applied from left to right: each character
/// appended, each Backspace erasing the last character if there is one.
pub open spec fn edited(buffer: Seq<char>, es: Seq<InputEvent>) -> Seq<char>
    decreases es.len(),
{
    if es.len() == 0 {
        buffer
    } else {
        let before = edited(buffer, es.drop_last());
        match es.last() {
            InputEvent::Key { code: KeyInput::Char(c), ctrl: _ } => before.push(c),
            _ => erase_last(before),
        }
    }
}

/// Whatever events come, the viewport is the size of the last resize among
/// them, or the size it had if none is a resize.
pub proof fn lemma_viewport_is_last_resize(s: InputState, es: Seq<InputEvent>)
    ensures
        (forall|i: int| 0 <= i < es.len() ==> !(es[i] is Resize)) ==> run(s, es).size == s.size,
        forall|i: int, w: u16, h: u16|
            0 <= i < es.len() && es[i] == InputEvent::Resize(w, h) && (forall|j: int|
                i < j < es.len() ==> !(es[j] is Resize)) ==> run(s, es).size == (w, h),
    decreases es.len(),
{
    if es.len() > 0 {
        let pre = es.drop_last();
        lemma_viewport_is_last_resize(s, pre);
        assert forall|i: int| 0 <= i < pre.len() implies pre[i] == es[i] by {}
        assert forall|i: int, w: u16, h: u16|
            0 <= i < es.len() && es[i] == InputEvent::Resize(w, h) && (forall|j: int|
                i < j < es.len() ==> !(es[j] is Resize)) implies run(s, es).size == (w, h) by {
            if i < es.len() - 1 {
                assert(!(es[es.len() - 1] is Resize));
                assert forall|j: int| i < j < pre.len() implies !(pre[j] is Resize) by {
                    assert(pre[j] == es[j]);
                }
            }
        }
        if forall|i: int| 0 <= i < es.len() ==> !(es[i] is Resize) {
            assert(!(es[es.len() - 1] is Resize));
        }
    }
}

/// While an address is being entered, any run of typed characters and
/// Backspaces leaves the router entering, with the viewport as it was and
/// the buffer equal to the typed text with each Backspace applied from left
/// to right (never below empty).
pub proof fn lemma_typing_edits_buffer(s: InputState, es: Seq<InputEvent>)
    requires
        s.entering,
        forall|i: int| 0 <= i < es.len() ==> is_edit(#[trigger] es[i]),
    ensures
        run(s, es) == s.with_mode(true, edited(s.buffer, es)),
    decreases es.len(),
{
    if es.len() > 0 {
        let pre = es.drop_last();
        assert forall|i: int| 0 <= i < pre.len() implies is_edit(#[trigger] pre[i]) by {
            assert(pre[i] == es[i]);
        }
        lemma_typing_edits_buffer(s, pre);
        assert(is_edit(es[es.len() - 1]));
    }
}

/// The terminal's input side: viewport, poll interval, and address entry.
#[derive(Debug)]
pub struct Terminal {
    pub size: (u16, u16),
    pub poll_interval_ms: u64,
    pub entering_addr: bool,
    pub input_buf: Vec<char>,
}

impl View for Terminal {
    type V = InputState;

    open spec fn view(&self) -> InputState {
        InputState { size: self.size, entering: self.entering_addr, buffer: self.input_buf@ }
    }
}

impl Terminal {
    pub open spec fn wf(&self) -> bool {
        self@.wf()
    }

    /// A terminal in normal mode with a 1x1 viewport, until the first size
    /// is observed.
    pub fn new() -> (r: Terminal)
        ensures
            r.wf(),
            r.size == (1u16, 1u16),
            r.poll_interval_ms == POLL_INTERVAL_MS,
            !r.entering_addr,
            r.input_buf@.len() == 0,
    {
        Terminal {
            size: (1, 1),
            poll_interval_ms: POLL_INTERVAL_MS,
            entering_addr: false,
            input_buf: Vec::new(),
        }
    }

    /// Records the viewport's observed size.
    pub fn update_size(&mut self, columns: u16, rows: u16)
        ensures
            final(self)@ == old(self)@.with_size((columns, rows)),
            final(self).poll_interval_ms == old(self).poll_interval_ms,
    {
        self.size = (columns, rows);
    }

    /// Handles one input event, following [`step`], and says what the
    /// program has to do about it.
    pub fn handle_event(&mut self, event: InputEvent) -> (action: Action)
        requires
            old(self).wf(),
        ensures
            final(self).wf(),
            final(self).poll_interval_ms == old(self).poll_interval_ms,
            (final(self)@, action@) == step(old(self)@, event),
    {
        match event {
            InputEvent::Resize(columns, rows) => {
                self.size = (columns, rows);
                Action::Redraw
            },
            InputEvent::Key { code, ctrl } => {
                if ctrl && code == KeyInput::Char('c') {
                    Action::Interrupt
                } else if self.entering_addr {
                    match code {
                        KeyInput::Char(c) => {
                            self.input_buf.push(c);
                            Action::Nothing
                        },
                        KeyInput::Backspace => {
                            let _ = self.input_buf.pop();
                            Action::Nothing
                        },
                        KeyInput::Enter => {
                            let mut text: Vec<char> = Vec::new();
                            std::mem::swap(&mut text, &mut self.input_buf);
                            self.entering_addr = false;
                            Action::Submit(text)
                        },
                        KeyInput::Esc => {
                            self.input_buf.clear();
                            self.entering_addr = false;
                            Action::HideCursor
                        },
                        KeyInput::Other => Action::Nothing,
                    }
                } else {
                    match code {
                        KeyInput::Char('c') => {
                            self.input_buf.clear();
                            self.entering_addr = true;
                            Action::ShowCursor
                        },
                        KeyInput::Char('l') => Action::Listen,
                        KeyInput::Char('Q') => Action::Disconnect,
                        _ => Action::Nothing,
                    }
                }
            },
            InputEvent::Other => Action::Nothing,
        }
    }
}

} // verus!
