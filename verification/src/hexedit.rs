//! The editing rules of the hex editor: a byte buffer shown as hex text,
//! a cursor that moves over it byte by byte, and what typing, pasting,
//! cutting and deleting do to the buffer.

use crate::util::{hex_encode_formatted, spaced_hex, trim, trimmed};
use vstd::prelude::*;
use vstd::string::StrSliceExecFns;
use vstd::utf8::{encode_utf8, is_ascii_chars};

verus! {

/// The value of a hex digit, upper or lower case, given as a byte of text.
pub open spec fn digit_value(byte: u8) -> Option<int> {
    if 48 <= byte <= 57 {
        Some(byte - 48)
    } else if 65 <= byte <= 70 {
        Some(byte - 55)
    } else if 97 <= byte <= 102 {
        Some(byte - 87)
    } else {
        None
    }
}

/// Whether the bytes are hex digits, two for each byte that they stand for.
pub open spec fn is_hex(digits: Seq<u8>) -> bool {
    digits.len() % 2 == 0 && forall|i: int|
        0 <= i < digits.len() ==> (#[trigger] digit_value(digits[i])) is Some
}

/// The bytes that hex digits stand for, the high digit of each first; none
/// where [`is_hex`] does not hold.
pub open spec fn decoded(digits: Seq<u8>) -> Option<Seq<u8>> {
    if is_hex(digits) {
        Some(
            Seq::new(
                digits.len() / 2,
                |i: int|
                    (16 * digit_value(digits[2 * i])->0 + digit_value(digits[2 * i + 1])->0) as u8,
            ),
        )
    } else {
        None
    }
}

/// The hex digits among the bytes, in order.
pub open spec fn hex_digits(bytes: Seq<u8>) -> Seq<u8>
    decreases bytes.len(),
{
    if bytes.len() == 0 {
        Seq::empty()
    } else {
        let rest = hex_digits(bytes.drop_last());
        if digit_value(bytes.last()) is Some {
            rest.push(bytes.last())
        } else {
            rest
        }
    }
}

/// The digits without the last one where their number is odd.
pub open spec fn whole_pairs(digits: Seq<u8>) -> Seq<u8> {
    if digits.len() % 2 == 0 {
        digits
    } else {
        digits.drop_last()
    }
}

/// The bytes that a paste of the text inserts: what the hex digits in it
/// stand for. Anything that is no hex digit is passed over, and so is a last
/// digit without a partner.
pub open spec fn pasted(text: Seq<u8>) -> Seq<u8> {
    decoded(whole_pairs(hex_digits(text)))->0
}

/// The bytes that typing `text` after the digit `first` inserts, where the
/// two together are hex digits in pairs.
pub open spec fn typed(first: char, text: Seq<char>) -> Option<Seq<u8>> {
    decoded(encode_utf8(seq![first] + text))
}

/// The buffer with the bytes from `from` up to `to` replaced by `data`.
pub open spec fn spliced(buffer: Seq<u8>, from: int, to: int, data: Seq<u8>) -> Seq<u8> {
    buffer.subrange(0, from) + data + buffer.subrange(to, buffer.len() as int)
}

/// The place in the buffer that a place in the view stands for.
pub open spec fn buffer_place(view_index: int) -> int {
    (view_index + 2) / 3
}

/// The place behind the byte in which a place in the view lies; the start
/// of the view stays where it is.
pub open spec fn snapped(view_index: int) -> int {
    if view_index != 0 {
        view_index - view_index % 3 + 2
    } else {
        0
    }
}

/// A cursor that lies within the hex text of a buffer selects within the
/// buffer: the end of the text stands for the end of the buffer.
pub proof fn cursor_in_view_is_in_buffer(buffer: Seq<u8>, view_index: int)
    requires
        0 <= view_index <= spaced_hex(buffer).len(),
    ensures
        0 <= buffer_place(view_index) <= buffer.len(),
        buffer_place(spaced_hex(buffer).len() as int) == buffer.len(),
{
}

/// A snapped cursor stands behind a whole byte: it stays at the start, and
/// elsewhere it stands behind the two digits of the byte that
/// [`buffer_place`] gives.
pub proof fn snapped_is_behind_a_byte(view_index: int)
    requires
        0 <= view_index,
    ensures
        snapped(view_index) == if view_index == 0 {
            0
        } else {
            3 * buffer_place(snapped(view_index)) - 1
        },
        snapped(snapped(view_index)) == snapped(view_index),
{
}

/// `hex::decode`: the bytes that the hex digits stand for. It fails on an
/// odd number of digits and on anything that is no hex digit; which of the
/// two it was is dropped here.
#[verifier::external_body]
fn decode(digits: &[u8]) -> (bytes: Option<Vec<u8>>)
    ensures
        match bytes {
            Some(bytes) => decoded(digits@) == Some(bytes@),
            None => decoded(digits@) is None,
        },
{
    hex::decode(digits).ok()
}

/// `format!` of a character and a text: the character, then the text.
#[verifier::external_body]
fn joined_text(first: char, rest: &str) -> (text: String)
    ensures
        text@ == seq![first] + rest@,
{
    format!("{first}{rest}")
}

pub fn is_hex_digit(byte: u8) -> (digit: bool)
    ensures
        digit == digit_value(byte) is Some,
{
    (48 <= byte && byte <= 57) || (65 <= byte && byte <= 70) || (97 <= byte && byte <= 102)
}

/// The hex digits of a text are hex digits, whatever their number.
pub proof fn hex_digits_are_digits(bytes: Seq<u8>)
    ensures
        forall|i: int|
            0 <= i < hex_digits(bytes).len() ==> (#[trigger] digit_value(hex_digits(bytes)[i]))
                is Some,
        is_hex(whole_pairs(hex_digits(bytes))),
    decreases bytes.len(),
{
    if bytes.len() > 0 {
        hex_digits_are_digits(bytes.drop_last());
    }
}

/// The bytes that a paste of the text inserts.
pub fn clean_paste(text: &str) -> (data: Vec<u8>)
    ensures
        data@ == pasted(encode_utf8(text@)),
        2 * data@.len() <= encode_utf8(text@).len(),
{
    let bytes = text.as_bytes();
    let mut digits: Vec<u8> = Vec::new();
    let mut at: usize = 0;
    while at < bytes.len()
        invariant
            at <= bytes.len(),
            digits@ == hex_digits(bytes@.take(at as int)),
            digits@.len() <= at,
        decreases bytes.len() - at,
    {
        assert(bytes@.take(at as int + 1).drop_last() =~= bytes@.take(at as int));
        if is_hex_digit(bytes[at]) {
            digits.push(bytes[at]);
        }
        at += 1;
    }
    assert(bytes@.take(at as int) =~= bytes@);
    if digits.len() % 2 != 0 {
        digits.pop();
    }
    assert(digits@ =~= whole_pairs(hex_digits(bytes@)));
    proof {
        hex_digits_are_digits(bytes@);
    }
    match decode(digits.as_slice()) {
        Some(data) => data,
        None => Vec::new(),
    }
}

/// Replaces the bytes from `from` up to `to` by `data`.
pub fn splice(buffer: &mut Vec<u8>, from: usize, to: usize, data: Vec<u8>)
    requires
        from <= to <= old(buffer)@.len(),
    ensures
        final(buffer)@ == spliced(old(buffer)@, from as int, to as int, data@),
{
    let mut inserted = data;
    let mut tail = buffer.split_off(to);
    buffer.truncate(from);
    buffer.append(&mut inserted);
    buffer.append(&mut tail);
    assert(buffer@ =~= spliced(old(buffer)@, from as int, to as int, data@));
}

/// The place in the buffer that a place in the view stands for. In the view
/// a byte takes three places, two digits and the space before the next
/// byte, so this is the third of the place, rounded up.
pub fn view_index_to_buffer_index(view_cursor: usize) -> (buffer_index: usize)
    ensures
        buffer_index == buffer_place(view_cursor as int),
{
    if view_cursor % 3 == 0 {
        view_cursor / 3
    } else {
        view_cursor / 3 + 1
    }
}

/// A selection in the view: where it was begun (`secondary`) and where the
/// cursor is (`primary`), as places between characters. The two are equal
/// where nothing is selected.
#[derive(Debug, Clone, Copy, PartialEq, Eq, Structural)]
pub struct CursorRange {
    pub primary: usize,
    pub secondary: usize,
}

impl CursorRange {
    /// The lower end of the selection in the view.
    pub open spec fn low(self) -> int {
        if self.primary <= self.secondary {
            self.primary as int
        } else {
            self.secondary as int
        }
    }

    /// The upper end of the selection in the view.
    pub open spec fn high(self) -> int {
        if self.primary <= self.secondary {
            self.secondary as int
        } else {
            self.primary as int
        }
    }

    /// The first selected place in the buffer.
    pub open spec fn from(self) -> int {
        buffer_place(self.low())
    }

    /// The place in the buffer behind the selection.
    pub open spec fn to(self) -> int {
        buffer_place(self.high())
    }

    /// No selection, with the cursor at a place in the view.
    pub open spec fn at(view_index: int) -> CursorRange {
        CursorRange { primary: view_index as usize, secondary: view_index as usize }
    }

    /// Moves both ends behind the bytes in which they lie.
    pub fn snap(&mut self)
        requires
            snapped(old(self).primary as int) <= usize::MAX,
            snapped(old(self).secondary as int) <= usize::MAX,
        ensures
            final(self).primary == snapped(old(self).primary as int),
            final(self).secondary == snapped(old(self).secondary as int),
    {
        if self.primary != 0 {
            self.primary = self.primary - self.primary % 3 + 2;
        }
        if self.secondary != 0 {
            self.secondary = self.secondary - self.secondary % 3 + 2;
        }
    }

    /// Moves the cursor one byte to the left, or to the start where less
    /// than a byte is left. Without `shift` the selection is given up.
    pub fn move_left(&mut self, shift: bool)
        ensures
            final(self).primary == if old(self).primary >= 3 {
                old(self).primary - 3
            } else {
                0
            },
            final(self).secondary == if shift {
                old(self).secondary
            } else {
                final(self).primary
            },
    {
        if self.primary >= 3 {
            self.primary -= 3;
        } else {
            self.primary = 0;
        }
        if !shift {
            self.secondary = self.primary;
        }
    }

    /// Moves the cursor one byte to the right: from the start behind the
    /// first byte, from elsewhere by three places where the view is long
    /// enough for that. Without `shift` the selection is given up.
    pub fn move_right(&mut self, shift: bool, view_len: usize)
        ensures
            final(self).primary == if old(self).primary == 0 {
                2
            } else if old(self).primary + 3 <= view_len {
                old(self).primary + 3
            } else {
                old(self).primary as int
            },
            final(self).secondary == if shift {
                old(self).secondary
            } else {
                final(self).primary
            },
    {
        if self.primary == 0 {
            self.primary = 2;
        } else if view_len >= 3 && self.primary <= view_len - 3 {
            self.primary += 3;
        }
        if !shift {
            self.secondary = self.primary;
        }
    }
}

/// The first digit of a byte that is being typed, until its second digit
/// comes.
#[derive(Debug, Clone, Copy)]
pub struct PartialNibble(pub Option<char>);

impl Default for PartialNibble {
    fn default() -> (nibble: PartialNibble)
        ensures
            nibble.0 is None,
    {
        PartialNibble(None)
    }
}

/// What an input event asks of the editor.
#[derive(Debug, PartialEq, Eq)]
pub enum EventHandleResult {
    Text(String),
    Paste(String),
    Delete,
    Cut,
    /// With `true` the selection is kept and stretched.
    CursorLeft(bool),
    /// With `true` the selection is kept and stretched.
    CursorRight(bool),
    NoAction,
}

/// What an [`EventHandleResult`] holds.
pub ghost enum Action {
    Text(Seq<char>),
    Paste(Seq<char>),
    Delete,
    Cut,
    CursorLeft(bool),
    CursorRight(bool),
    NoAction,
}

impl View for EventHandleResult {
    type V = Action;

    open spec fn view(&self) -> Action {
        match self {
            EventHandleResult::Text(text) => Action::Text(text@),
            EventHandleResult::Paste(text) => Action::Paste(text@),
            EventHandleResult::Delete => Action::Delete,
            EventHandleResult::Cut => Action::Cut,
            EventHandleResult::CursorLeft(shift) => Action::CursorLeft(*shift),
            EventHandleResult::CursorRight(shift) => Action::CursorRight(*shift),
            EventHandleResult::NoAction => Action::NoAction,
        }
    }
}

/// The views of the results, in order.
pub open spec fn actions(results: Seq<EventHandleResult>) -> Seq<Action> {
    Seq::new(results.len(), |i: int| results[i]@)
}

/// A key that the editor tells from the others.
#[derive(Debug, Clone, Copy, PartialEq, Eq, Structural)]
pub enum EditorKey {
    ArrowLeft,
    ArrowRight,
    Backspace,
    Other,
}

/// An input event, as far as the editor reads it.
#[derive(Debug)]
pub enum InputEvent {
    /// A key went down (`pressed`) or up, with or without shift.
    Key { key: EditorKey, pressed: bool, shift: bool },
    Cut,
    /// Text was typed.
    Text(String),
    /// Text was pasted.
    Paste(String),
    Other,
}

/// What an [`InputEvent`] holds.
pub ghost enum Input {
    Key { key: EditorKey, pressed: bool, shift: bool },
    Cut,
    Text(Seq<char>),
    Paste(Seq<char>),
    Other,
}

impl View for InputEvent {
    type V = Input;

    open spec fn view(&self) -> Input {
        match self {
            InputEvent::Key { key, pressed, shift } => Input::Key {
                key: *key,
                pressed: *pressed,
                shift: *shift,
            },
            InputEvent::Cut => Input::Cut,
            InputEvent::Text(text) => Input::Text(text@),
            InputEvent::Paste(text) => Input::Paste(text@),
            InputEvent::Other => Input::Other,
        }
    }
}

/// What the editor makes of an input event, and whether it keeps the event
/// from the text widget under it. The arrow keys and backspace count when
/// they go down; cut, typed and pasted text always; nothing else.
pub open spec fn handled(event: Input) -> (Action, bool) {
    match event {
        Input::Key { key: EditorKey::ArrowLeft, pressed: true, shift } => (
            Action::CursorLeft(shift),
            true,
        ),
        Input::Key { key: EditorKey::ArrowRight, pressed: true, shift } => (
            Action::CursorRight(shift),
            true,
        ),
        Input::Key { key: EditorKey::Backspace, pressed: true, .. } => (Action::Delete, true),
        Input::Cut => (Action::Cut, true),
        Input::Text(text) => (Action::Text(text), true),
        Input::Paste(text) => (Action::Paste(text), true),
        _ => (Action::NoAction, false),
    }
}

/// What the editor works on besides the shown text: the buffer, the cursor
/// in the view, and the first digit of a byte that is being typed.
pub ghost struct Editing {
    pub buffer: Seq<u8>,
    pub cursor: Option<CursorRange>,
    pub nibble: Option<char>,
}

/// What an edit leaves behind.
pub ghost struct Edit {
    pub buffer: Seq<u8>,
    pub cursor: CursorRange,
    pub nibble: Option<char>,
    /// The text for the clipboard.
    pub clipboard: Option<Seq<char>>,
}

/// What the editor makes of an event, with a cursor in the view and the
/// focus on it.
///
/// * Delete takes out the selected bytes; without a selection, the byte
///   before the cursor.
/// * Paste replaces the selection by the bytes that the pasted text stands
///   for, and puts the cursor behind them.
/// * Cut takes out the selected bytes, puts the selected text on the
///   clipboard, trimmed, and the cursor where the selection began.
/// * Text is one typed digit. The first digit of a byte is only kept. With
///   the second the byte replaces the selection and the cursor goes behind
///   it; where the two are no hex digits, nothing happens and the first
///   digit stays.
/// * Anything else changes nothing.
pub open spec fn edited(
    buffer: Seq<u8>,
    view: Seq<char>,
    cursor: CursorRange,
    nibble: Option<char>,
    result: Action,
) -> Edit {
    let same = Edit { buffer, cursor, nibble, clipboard: None };
    match result {
        Action::Delete => Edit {
            buffer: if cursor.from() == cursor.to() && cursor.from() != 0 {
                buffer.remove(cursor.from() - 1)
            } else {
                spliced(buffer, cursor.from(), cursor.to(), Seq::empty())
            },
            ..same
        },
        Action::Paste(text) => {
            let data = pasted(encode_utf8(text));
            Edit {
                buffer: spliced(buffer, cursor.from(), cursor.to(), data),
                cursor: CursorRange::at(cursor.low() + 2 * data.len()),
                ..same
            }
        },
        Action::Cut => Edit {
            buffer: spliced(buffer, cursor.from(), cursor.to(), Seq::empty()),
            cursor: CursorRange::at(cursor.low()),
            clipboard: Some(trimmed(view.subrange(cursor.low(), cursor.high()))),
            ..same
        },
        Action::Text(text) => match nibble {
            Some(first) => match typed(first, text) {
                Some(data) => Edit {
                    buffer: spliced(buffer, cursor.from(), cursor.to(), data),
                    cursor: CursorRange::at(cursor.low() + 2),
                    nibble: None,
                    clipboard: None,
                },
                None => same,
            },
            None => Edit { nibble: Some(text[0]), ..same },
        },
        _ => same,
    }
}

/// Where the editor can take an event: the selection lies within the
/// buffer, the cursor behind what is inserted is still a place that a
/// machine word holds, a cut selects from a view of ASCII text, and a first
/// typed digit is there.
pub open spec fn editable(
    buffer: Seq<u8>,
    view: Seq<char>,
    cursor: CursorRange,
    nibble: Option<char>,
    result: Action,
) -> bool {
    match result {
        Action::Delete => cursor.to() <= buffer.len(),
        Action::Paste(text) => cursor.to() <= buffer.len() && cursor.low() + encode_utf8(text).len()
            <= usize::MAX,
        Action::Cut => cursor.to() <= buffer.len() && cursor.high() <= view.len() && is_ascii_chars(
            view,
        ),
        Action::Text(text) => match nibble {
            Some(_) => cursor.to() <= buffer.len() && cursor.low() + 2 <= usize::MAX,
            None => text.len() > 0,
        },
        _ => true,
    }
}

/// The cursor after an event that moves it: one byte to the left, or to the
/// start where less than a byte is left; one byte to the right, from the
/// start behind the first byte, from elsewhere by three places where the
/// view is that long. Without shift the selection is given up. Any other
/// event leaves the cursor where it is.
pub open spec fn moved(cursor: CursorRange, view_len: int, result: Action) -> CursorRange {
    match result {
        Action::CursorLeft(shift) => {
            let primary = if cursor.primary >= 3 {
                (cursor.primary - 3) as usize
            } else {
                0
            };
            CursorRange {
                primary,
                secondary: if shift {
                    cursor.secondary
                } else {
                    primary
                },
            }
        },
        Action::CursorRight(shift) => {
            let primary = if cursor.primary == 0 {
                2
            } else if cursor.primary + 3 <= view_len {
                (cursor.primary + 3) as usize
            } else {
                cursor.primary
            };
            CursorRange {
                primary,
                secondary: if shift {
                    cursor.secondary
                } else {
                    primary
                },
            }
        },
        _ => cursor,
    }
}

/// The cursor after the moves among the events, in order.
pub open spec fn moved_all(cursor: CursorRange, view_len: int, results: Seq<Action>) -> CursorRange
    decreases results.len(),
{
    if results.len() == 0 {
        cursor
    } else {
        moved_all(moved(cursor, view_len, results[0]), view_len, results.drop_first())
    }
}

/// The editor's state after one event: what [`edited`] says, where the
/// editor has the focus and a cursor and can take the event; else the state
/// as it was.
pub open spec fn processed(
    state: Editing,
    view: Seq<char>,
    focused: bool,
    result: Action,
) -> Editing {
    if focused && state.cursor is Some && editable(
        state.buffer,
        view,
        state.cursor->0,
        state.nibble,
        result,
    ) {
        let edit = edited(state.buffer, view, state.cursor->0, state.nibble, result);
        Editing { buffer: edit.buffer, cursor: Some(edit.cursor), nibble: edit.nibble }
    } else {
        state
    }
}

/// The editor's state after the events, in order.
pub open spec fn processed_all(
    state: Editing,
    view: Seq<char>,
    focused: bool,
    results: Seq<Action>,
) -> Editing
    decreases results.len(),
{
    if results.len() == 0 {
        state
    } else {
        processed_all(
            processed(state, view, focused, results[0]),
            view,
            focused,
            results.drop_first(),
        )
    }
}

/// The state from which the events of one frame are processed: with the
/// cursor, where there is one, snapped behind its bytes and then moved.
pub open spec fn aimed(state: Editing, view_len: int, results: Seq<Action>) -> Editing {
    match state.cursor {
        Some(cursor) => Editing {
            cursor: Some(
                moved_all(
                    CursorRange {
                        primary: snapped(cursor.primary as int) as usize,
                        secondary: snapped(cursor.secondary as int) as usize,
                    },
                    view_len,
                    results,
                ),
            ),
            ..state
        },
        None => state,
    }
}

/// An editor on a byte buffer. It keeps the buffer's hex text beside the
/// buffer; the text is brought up to date by [`HexEditor::sync_view`].
pub struct HexEditor<'a> {
    buffer: &'a mut Vec<u8>,
    view: String,
}

impl<'a> HexEditor<'a> {
    /// The bytes in the buffer.
    pub closed spec fn buffer(&self) -> Seq<u8> {
        self.buffer@
    }

    /// The text that the editor shows.
    pub closed spec fn text(&self) -> Seq<char> {
        self.view@
    }

    pub fn new(buffer: &'a mut Vec<u8>) -> (editor: HexEditor<'a>)
        ensures
            editor.buffer() == old(buffer)@,
            editor.text() == spaced_hex(old(buffer)@),
    {
        let view = hex_encode_formatted(buffer.as_slice());
        HexEditor { buffer, view }
    }

    /// Writes the buffer's hex text anew.
    pub fn sync_view(&mut self)
        ensures
            final(self).buffer() == old(self).buffer(),
            final(self).text() == spaced_hex(old(self).buffer()),
    {
        self.view = hex_encode_formatted(self.buffer.as_slice());
    }

    pub fn view(&self) -> (text: &String)
        ensures
            text@ == self.text(),
    {
        &self.view
    }

    /// The text, for a widget to show and to change.
    pub fn view_mut(&mut self) -> (text: &mut String)
        ensures
            text@ == old(self).text(),
            final(self).text() == final(text)@,
            final(self).buffer() == old(self).buffer(),
    {
        &mut self.view
    }

    /// What the editor makes of an input event; see [`handled`].
    pub fn handle_event(&self, event: &InputEvent) -> (result: (EventHandleResult, bool))
        ensures
            (result.0@, result.1) == handled(event@),
    {
        match event {
            InputEvent::Key { key, pressed, shift } => {
                if !*pressed {
                    (EventHandleResult::NoAction, false)
                } else {
                    match key {
                        EditorKey::ArrowLeft => (EventHandleResult::CursorLeft(*shift), true),
                        EditorKey::ArrowRight => (EventHandleResult::CursorRight(*shift), true),
                        EditorKey::Backspace => (EventHandleResult::Delete, true),
                        EditorKey::Other => (EventHandleResult::NoAction, false),
                    }
                }
            },
            InputEvent::Cut => (EventHandleResult::Cut, true),
            InputEvent::Text(text) => (EventHandleResult::Text(text.clone()), true),
            InputEvent::Paste(text) => (EventHandleResult::Paste(text.clone()), true),
            InputEvent::Other => (EventHandleResult::NoAction, false),
        }
    }

    /// Moves the cursor where the event asks for it; see [`moved`]. The
    /// length of the view counts in bytes.
    pub fn move_cursor(&self, cursor: &mut CursorRange, result: &EventHandleResult)
        ensures
            *final(cursor) == moved(*old(cursor), encode_utf8(self.text()).len() as int, result@),
    {
        match result {
            EventHandleResult::CursorLeft(shift) => cursor.move_left(*shift),
            EventHandleResult::CursorRight(shift) => {
                cursor.move_right(*shift, self.view.as_str().as_bytes().len())
            },
            _ => {},
        }
    }

    /// Whether [`HexEditor::process_event_result`] can take the event now.
    pub fn accepts(
        &self,
        result: &EventHandleResult,
        focused: bool,
        partial_nibble: &PartialNibble,
        cursor: &Option<CursorRange>,
    ) -> (accepted: bool)
        ensures
            accepted == (focused && *cursor is Some ==> editable(
                self.buffer(),
                self.text(),
                cursor->0,
                partial_nibble.0,
                result@,
            )),
    {
        if !focused {
            return true;
        }
        let range = match cursor {
            Some(range) => *range,
            None => {
                return true;
            },
        };
        let p_buf_index = view_index_to_buffer_index(range.primary);
        let s_buf_index = view_index_to_buffer_index(range.secondary);
        let low = if range.primary <= range.secondary {
            range.primary
        } else {
            range.secondary
        };
        let high = if range.primary <= range.secondary {
            range.secondary
        } else {
            range.primary
        };
        let to = if p_buf_index <= s_buf_index {
            s_buf_index
        } else {
            p_buf_index
        };
        assert(to == range.to());
        let within = to <= self.buffer.len();
        match result {
            EventHandleResult::Delete => within,
            EventHandleResult::Paste(text) => within && text.as_str().as_bytes().len()
                <= usize::MAX - low,
            EventHandleResult::Cut => {
                let view = self.view.as_str();
                proof {
                    if is_ascii_chars(view@) {
                        vstd::string::is_ascii_spec_bytes(view);
                    }
                }
                within && view.is_ascii() && high <= view.as_bytes().len()
            },
            EventHandleResult::Text(text) => match partial_nibble.0 {
                Some(_) => within && low <= usize::MAX - 2,
                None => !text.as_str().is_empty(),
            },
            _ => true,
        }
    }

    /// Takes one event. Without the focus, or without a cursor in the view,
    /// nothing changes; else the buffer, the cursor and the pending digit
    /// become what [`edited`] says, and the result is the text for the
    /// clipboard, if there is one. The shown text stays as it is until
    /// [`HexEditor::sync_view`].
    pub fn process_event_result(
        &mut self,
        result: EventHandleResult,
        focused: bool,
        partial_nibble: &mut PartialNibble,
        cursor: &mut Option<CursorRange>,
    ) -> (clipboard: Option<String>)
        requires
            focused && *old(cursor) is Some ==> editable(
                old(self).buffer(),
                old(self).text(),
                old(cursor)->0,
                old(partial_nibble).0,
                result@,
            ),
        ensures
            final(self).text() == old(self).text(),
            (Editing {
                buffer: final(self).buffer(),
                cursor: *final(cursor),
                nibble: final(partial_nibble).0,
            }) == processed(
                Editing {
                    buffer: old(self).buffer(),
                    cursor: *old(cursor),
                    nibble: old(partial_nibble).0,
                },
                old(self).text(),
                focused,
                result@,
            ),
            if focused && *old(cursor) is Some {
                let edit = edited(
                    old(self).buffer(),
                    old(self).text(),
                    old(cursor)->0,
                    old(partial_nibble).0,
                    result@,
                );
                match clipboard {
                    Some(text) => edit.clipboard == Some(text@),
                    None => edit.clipboard is None,
                }
            } else {
                clipboard is None
            },
    {
        if !focused {
            return None;
        }
        let range = match *cursor {
            Some(range) => range,
            None => {
                return None;
            },
        };
        let p_buf_index = view_index_to_buffer_index(range.primary);
        let s_buf_index = view_index_to_buffer_index(range.secondary);
        let low = if range.primary <= range.secondary {
            range.primary
        } else {
            range.secondary
        };
        let high = if range.primary <= range.secondary {
            range.secondary
        } else {
            range.primary
        };
        let from = if p_buf_index <= s_buf_index {
            p_buf_index
        } else {
            s_buf_index
        };
        let to = if p_buf_index <= s_buf_index {
            s_buf_index
        } else {
            p_buf_index
        };
        assert(from == range.from() && to == range.to());
        match result {
            EventHandleResult::Delete => {
                if s_buf_index == p_buf_index && p_buf_index != 0 {
                    self.buffer.remove(p_buf_index - 1);
                } else {
                    splice(self.buffer, from, to, Vec::new());
                }
                None
            },
            EventHandleResult::Paste(text) => {
                let data = clean_paste(text.as_str());
                let data_len = data.len();
                splice(self.buffer, from, to, data);
                let behind = low + data_len * 2;
                *cursor = Some(CursorRange { primary: behind, secondary: behind });
                None
            },
            EventHandleResult::Cut => {
                let view = self.view.as_str();
                let selected = view.substring_ascii(low, high);
                let clipboard = trim(selected).to_owned();
                splice(self.buffer, from, to, Vec::new());
                *cursor = Some(CursorRange { primary: low, secondary: low });
                Some(clipboard)
            },
            EventHandleResult::Text(text) => {
                match partial_nibble.0 {
                    Some(first) => {
                        let digits = joined_text(first, text.as_str());
                        match decode(digits.as_str().as_bytes()) {
                            Some(data) => {
                                splice(self.buffer, from, to, data);
                                partial_nibble.0 = None;
                                let behind = low + 2;
                                *cursor = Some(CursorRange { primary: behind, secondary: behind });
                            },
                            None => {},
                        }
                    },
                    None => {
                        partial_nibble.0 = Some(text.as_str().get_char(0));
                    },
                }
                None
            },
            _ => None,
        }
    }

    /// Takes the events of one frame. The cursor, where there is one, is
    /// first snapped behind its bytes and moved as the events say. Then each
    /// event is processed in turn, as [`HexEditor::process_event_result`]
    /// does it; an event that the editor cannot take is passed over. At last
    /// the shown text is written anew. The result holds the texts for the
    /// clipboard, one for each cut.
    pub fn apply(
        &mut self,
        results: Vec<EventHandleResult>,
        focused: bool,
        partial_nibble: &mut PartialNibble,
        cursor: &mut Option<CursorRange>,
    ) -> (clipboard: Vec<String>)
        requires
            *old(cursor) matches Some(range) ==> snapped(range.primary as int) <= usize::MAX
                && snapped(range.secondary as int) <= usize::MAX,
        ensures
            (Editing {
                buffer: final(self).buffer(),
                cursor: *final(cursor),
                nibble: final(partial_nibble).0,
            }) == processed_all(
                aimed(
                    Editing {
                        buffer: old(self).buffer(),
                        cursor: *old(cursor),
                        nibble: old(partial_nibble).0,
                    },
                    encode_utf8(old(self).text()).len() as int,
                    actions(results@),
                ),
                old(self).text(),
                focused,
                actions(results@),
            ),
            final(self).text() == spaced_hex(final(self).buffer()),
    {
        let ghost all = actions(results@);
        let ghost view_len = encode_utf8(self.text()).len() as int;
        let ghost view = self.text();
        let ghost start = Editing {
            buffer: self.buffer(),
            cursor: *cursor,
            nibble: partial_nibble.0,
        };
        if let Some(mut range) = *cursor {
            range.snap();
            let ghost snapped_range = range;
            let mut at: usize = 0;
            assert(all.subrange(0, all.len() as int) =~= all);
            while at < results.len()
                invariant
                    at <= results.len(),
                    all == actions(results@),
                    view_len == encode_utf8(self.text()).len(),
                    moved_all(range, view_len, all.subrange(at as int, all.len() as int))
                        == moved_all(snapped_range, view_len, all),
                decreases results.len() - at,
            {
                let ghost rest = all.subrange(at as int, all.len() as int);
                assert(rest[0] == results@[at as int]@);
                assert(rest.drop_first() =~= all.subrange(at as int + 1, all.len() as int));
                self.move_cursor(&mut range, &results[at]);
                at += 1;
            }
            assert(all.subrange(at as int, all.len() as int) =~= Seq::<Action>::empty());
            *cursor = Some(range);
        }
        let ghost aim = Editing {
            buffer: self.buffer(),
            cursor: *cursor,
            nibble: partial_nibble.0,
        };
        assert(aim == aimed(start, view_len, all));
        let mut clipboard: Vec<String> = Vec::new();
        let mut results = results;
        let ghost mut done: int = 0;
        assert(all.subrange(0, all.len() as int) =~= all);
        while results.len() > 0
            invariant
                0 <= done <= all.len(),
                actions(results@) == all.subrange(done, all.len() as int),
                view == self.text(),
                processed_all(
                    Editing {
                        buffer: self.buffer(),
                        cursor: *cursor,
                        nibble: partial_nibble.0,
                    },
                    view,
                    focused,
                    all.subrange(done, all.len() as int),
                ) == processed_all(aim, view, focused, all),
            decreases results.len(),
        {
            let ghost rest = all.subrange(done, all.len() as int);
            let ghost before = results@;
            let result = results.remove(0);
            assert(rest[0] == result@);
            assert(actions(results@) =~= all.subrange(done + 1, all.len() as int)) by {
                assert forall|i: int| 0 <= i < results@.len() implies actions(results@)[i]
                    == all.subrange(done + 1, all.len() as int)[i] by {
                    assert(results@[i] == before[i + 1]);
                    assert(actions(before)[i + 1] == before[i + 1]@);
                }
            }
            assert(rest.drop_first() =~= all.subrange(done + 1, all.len() as int));
            if self.accepts(&result, focused, partial_nibble, cursor) {
                if let Some(text) = self.process_event_result(
                    result,
                    focused,
                    partial_nibble,
                    cursor,
                ) {
                    clipboard.push(text);
                }
            }
            proof {
                done = done + 1;
            }
        }
        assert(all.subrange(done, all.len() as int) =~= Seq::<Action>::empty());
        self.sync_view();
        clipboard
    }
}

} // verus!
