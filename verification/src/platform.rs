//! The terminal capability interface and what is shared by every backend.
//!
//! A concrete backend (a native console, an ANSI-escape stream) lives in the
//! host program and satisfies the [`Terminal`] trait; the core only ever
//! talks to that trait.  Each backend normalizes its native input into the
//! shared [`Event`] variant before it reaches the dispatch loop.  The
//! normalization rules of a native console's key records, which are plain
//! data, are verified here.
use vstd::prelude::*;

verus! {

/// The colors every backend must recognize.
#[derive(Clone, Copy, Debug, PartialEq, Eq, Structural)]
pub enum Color {
    Default,
    Black,
    Red,
    Green,
    Yellow,
    Blue,
    Magenta,
    Cyan,
    White,
}

/// A normalized input event.
#[derive(Clone, Copy, Debug, PartialEq, Eq, Structural)]
pub enum Event {
    KeyPress(Key),
}

/// A normalized key.
#[derive(Clone, Copy, Debug, PartialEq, Eq, Structural)]
pub enum Key {
    Char(char),
    Enter,
    Backspace,
}

/// The operation set a terminal backend must provide to be usable by the
/// core loop.  Writes take effect at the current cursor position with the
/// current color pair; `render` flushes buffered paints to the display and
/// may be a no-op on an immediate-mode backend.
pub trait Terminal {
    fn width(&self) -> usize;

    fn height(&self) -> usize;

    fn move_cursor(&mut self, row: usize, col: usize);

    fn color_cursor(&mut self, bg: Color, fg: Color);

    fn render(&self);

    fn clear_fb(&mut self);

    fn write_ln(&self, text: &str);

    fn clear_ln(&self);

    fn poll_event(&mut self) -> Result<Event, String>;
}

/// Paint `text` at (`row`, `col`) in the ordinary style, white on black.
pub fn twrite<T: Terminal>(term: &mut T, row: usize, col: usize, text: &str) {
    term.move_cursor(row, col);
    term.color_cursor(Color::Black, Color::White);
    term.write_ln(text);
}

/// Paint `text` at (`row`, `col`) in the error style, red on black.
pub fn terror<T: Terminal>(term: &mut T, row: usize, col: usize, text: &str) {
    term.move_cursor(row, col);
    term.color_cursor(Color::Black, Color::Red);
    term.write_ln(text);
}

/// Paint `text` at (`row`, `col`) in the edit-buffer style, green on black.
pub fn tinput<T: Terminal>(term: &mut T, row: usize, col: usize, text: &str) {
    term.move_cursor(row, col);
    term.color_cursor(Color::Black, Color::Green);
    term.write_ln(text);
}

/// Blank the whole row at `row`.
pub fn tclear<T: Terminal>(term: &mut T, row: usize, col: usize) {
    term.move_cursor(row, col);
    term.clear_ln();
}

/// The win32 console attribute code for `c`.
pub open spec fn spec_convert_color(c: Color) -> u16 {
    match c {
        Color::Default => 0x0000u16,
        Color::Black => 0x0000u16,
        Color::Red => 0x0004u16,
        Color::Green => 0x0002u16,
        Color::Blue => 0x0001u16,
        Color::Yellow => 0x0004u16 | 0x0002u16 | 0x0008u16,
        Color::Magenta => 0x0004u16 | 0x0001u16 | 0x0008u16,
        Color::Cyan => 0x0001u16 | 0x0008u16,
        Color::White => 0x0004u16 | 0x0002u16 | 0x0001u16,
    }
}

/// Convert a platform color to its win32 console attribute code.
pub fn convert_color(color: Color) -> (a: u16)
    ensures
        a == spec_convert_color(color),
{
    match color {
        Color::Default => 0x0000u16,
        Color::Black => 0x0000u16,
        Color::Red => 0x0004u16,
        Color::Green => 0x0002u16,
        Color::Blue => 0x0001u16,
        Color::Yellow => 0x0004u16 | 0x0002u16 | 0x0008u16,
        Color::Magenta => 0x0004u16 | 0x0001u16 | 0x0008u16,
        Color::Cyan => 0x0001u16 | 0x0008u16,
        Color::White => 0x0004u16 | 0x0002u16 | 0x0001u16,
    }
}

/// The virtual-key code of the return key on a native console.
pub const VK_RETURN: u16 = 0x0d;

/// The virtual-key code of the backspace key on a native console.
pub const VK_BACK: u16 = 0x08;

/// The fields of a native console key record that normalization reads.
#[derive(Clone, Copy, Debug, PartialEq, Eq, Structural)]
pub struct KeyRecord {
    /// Nonzero while the key is held down.
    pub key_down: i32,
    /// How many presses the record stands for.
    pub repeat_count: u16,
    /// The device-independent key code.
    pub virtual_key_code: u16,
    /// The character the press translates to.
    pub unicode_char: u16,
}

/// Whether a key record is a single, downward key press.
pub open spec fn spec_valid_keypress(e: KeyRecord) -> bool {
    e.key_down == 1 && e.repeat_count <= 1
}

/// Whether a key record is a single press of one of the keys the calculator
/// treats specially, return or backspace.
pub open spec fn spec_meta_key(e: KeyRecord) -> bool {
    spec_valid_keypress(e) && (e.virtual_key_code == VK_RETURN || e.virtual_key_code
        == VK_BACK)
}

/// The normalized event a native console key record stands for, if any.
pub open spec fn spec_normalize_key(e: KeyRecord) -> Option<Event> {
    if spec_meta_key(e) {
        if e.virtual_key_code == VK_RETURN {
            Some(Event::KeyPress(Key::Enter))
        } else {
            Some(Event::KeyPress(Key::Backspace))
        }
    } else if spec_valid_keypress(e) {
        Some(Event::KeyPress(Key::Char((e.unicode_char as u8) as char)))
    } else {
        None
    }
}

/// Whether a key record is a single, downward key press.
pub fn valid_keypress(event: &KeyRecord) -> (r: bool)
    ensures
        r == spec_valid_keypress(*event),
{
    event.key_down == 1 && event.repeat_count <= 1
}

/// Whether a key record is a single press of return or backspace.
pub fn meta_key(event: &KeyRecord) -> (r: bool)
    ensures
        r == spec_meta_key(*event),
{
    valid_keypress(event) && (event.virtual_key_code == VK_RETURN
        || event.virtual_key_code == VK_BACK)
}

/// Normalize one native console key record into the shared event variant.
pub fn normalize_key(event: &KeyRecord) -> (r: Option<Event>)
    ensures
        r == spec_normalize_key(*event),
{
    if meta_key(event) {
        if event.virtual_key_code == VK_RETURN {
            Some(Event::KeyPress(Key::Enter))
        } else {
            Some(Event::KeyPress(Key::Backspace))
        }
    } else if valid_keypress(event) {
        Some(Event::KeyPress(Key::Char((event.unicode_char as u8) as char)))
    } else {
        None
    }
}

/// The normalized events of a batch of key records, in record order.
pub open spec fn normalized_events(rs: Seq<KeyRecord>) -> Seq<Event>
    decreases rs.len(),
{
    if rs.len() == 0 {
        Seq::empty()
    } else {
        match spec_normalize_key(rs.last()) {
            Some(e) => normalized_events(rs.drop_last()).push(e),
            None => normalized_events(rs.drop_last()),
        }
    }
}

/// Drain a batch of native console key records into the pending-event
/// queue, then take the most recently queued event; with nothing queued,
/// report that no event is ready.
pub fn enqueue_key_records(records: &Vec<KeyRecord>, queue: &mut Vec<Event>) -> (r: Result<
    Event,
    String,
>)
    ensures
        ({
            let all = old(queue)@ + normalized_events(records@);
            if all.len() == 0 {
                final(queue)@ == all && (r matches Err(m) && m@ == "no events to return"@)
            } else {
                final(queue)@ == all.drop_last() && r == Ok::<Event, String>(all.last())
            }
        }),
{
    let n = records.len();
    for i in 0..n
        invariant
            n == records@.len(),
            queue@ == old(queue)@ + normalized_events(records@.take(i as int)),
    {
        proof {
            assert(records@.take(i + 1).drop_last() =~= records@.take(i as int));
            assert(records@.take(i + 1).last() == records@[i as int]);
        }
        match normalize_key(&records[i]) {
            Some(ev) => queue.push(ev),
            None => {},
        }
    }
    proof {
        assert(records@.take(n as int) =~= records@);
    }
    match queue.pop() {
        Some(ev) => {
            proof {
                let all = old(queue)@ + normalized_events(records@);
                assert(queue@ =~= all.drop_last());
            }
            Ok(ev)
        },
        None => Err("no events to return".to_owned()),
    }
}

} // verus!
