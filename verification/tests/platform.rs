use std::cell::RefCell;

use ripple::input::{is_numeric, EditBuffer};
use ripple::platform::{
    convert_color, enqueue_key_records, meta_key, normalize_key, tclear, terror, tinput,
    twrite, valid_keypress, Color, Event, Key, KeyRecord, Terminal, VK_BACK, VK_RETURN,
};
use ripple::render::{replay, PaintOp};

#[test]
fn numeric_keys_are_digits_and_the_point() {
    for c in "0123456789.".chars() {
        assert!(is_numeric(c));
    }
    for c in "qdn+-*/ abcx\n".chars() {
        assert!(!is_numeric(c));
    }
}

#[test]
fn edit_buffer_appends_and_truncates() {
    let mut b = EditBuffer::new();
    assert!(b.is_empty());
    b.append('1');
    b.append('.');
    b.append('5');
    assert_eq!(b.text(), "1.5");
    b.backspace();
    assert_eq!(b.text(), "1.");
    b.backspace();
    b.backspace();
    assert!(b.is_empty());
    b.backspace();
    assert!(b.is_empty());
    b.append('7');
    b.clear();
    assert_eq!(b.text(), "");
}

#[test]
fn color_codes_match_the_console_attributes() {
    assert_eq!(convert_color(Color::Default), 0x0000);
    assert_eq!(convert_color(Color::Black), 0x0000);
    assert_eq!(convert_color(Color::Red), 0x0004);
    assert_eq!(convert_color(Color::Green), 0x0002);
    assert_eq!(convert_color(Color::Blue), 0x0001);
    assert_eq!(convert_color(Color::Yellow), 0x000e);
    assert_eq!(convert_color(Color::Magenta), 0x000d);
    assert_eq!(convert_color(Color::Cyan), 0x0009);
    assert_eq!(convert_color(Color::White), 0x0007);
}

fn key_record(down: i32, repeat: u16, vk: u16, ch: u16) -> KeyRecord {
    KeyRecord { key_down: down, repeat_count: repeat, virtual_key_code: vk, unicode_char: ch }
}

#[test]
fn key_records_normalize_to_shared_events() {
    let enter = key_record(1, 1, VK_RETURN, 13);
    assert!(meta_key(&enter));
    assert_eq!(normalize_key(&enter), Some(Event::KeyPress(Key::Enter)));

    let back = key_record(1, 0, VK_BACK, 8);
    assert_eq!(normalize_key(&back), Some(Event::KeyPress(Key::Backspace)));

    let seven = key_record(1, 1, 0x37, '7' as u16);
    assert!(valid_keypress(&seven));
    assert!(!meta_key(&seven));
    assert_eq!(normalize_key(&seven), Some(Event::KeyPress(Key::Char('7'))));

    let release = key_record(0, 1, 0x37, '7' as u16);
    assert!(!valid_keypress(&release));
    assert_eq!(normalize_key(&release), None);

    let autorepeat = key_record(1, 3, 0x37, '7' as u16);
    assert_eq!(normalize_key(&autorepeat), None);
}

#[test]
fn draining_key_records_pops_the_most_recent() {
    let records = vec![
        key_record(1, 1, 0x33, '3' as u16),
        key_record(0, 1, 0x33, '3' as u16),
        key_record(1, 1, VK_RETURN, 13),
    ];
    let mut queue = Vec::new();
    let got = enqueue_key_records(&records, &mut queue);
    assert_eq!(got, Ok(Event::KeyPress(Key::Enter)));
    assert_eq!(queue, vec![Event::KeyPress(Key::Char('3'))]);

    let got = enqueue_key_records(&Vec::new(), &mut queue);
    assert_eq!(got, Ok(Event::KeyPress(Key::Char('3'))));
    assert!(queue.is_empty());

    let got = enqueue_key_records(&Vec::new(), &mut queue);
    assert_eq!(got, Err("no events to return".to_string()));
}

/// A backend that records every capability call it receives.
struct LogTerm {
    cursor: (usize, usize),
    colors: (Color, Color),
    log: RefCell<Vec<String>>,
}

impl LogTerm {
    fn new() -> LogTerm {
        LogTerm { cursor: (0, 0), colors: (Color::Default, Color::Default), log: RefCell::new(Vec::new()) }
    }
}

impl Terminal for LogTerm {
    fn width(&self) -> usize {
        80
    }
    fn height(&self) -> usize {
        25
    }
    fn move_cursor(&mut self, row: usize, col: usize) {
        self.cursor = (row, col);
    }
    fn color_cursor(&mut self, bg: Color, fg: Color) {
        self.colors = (bg, fg);
    }
    fn render(&self) {
        self.log.borrow_mut().push("render".to_string());
    }
    fn clear_fb(&mut self) {}
    fn write_ln(&self, text: &str) {
        self.log.borrow_mut().push(format!(
            "write {:?} at {:?} colors {:?}",
            text, self.cursor, self.colors
        ));
    }
    fn clear_ln(&self) {
        self.log.borrow_mut().push(format!("clear row {}", self.cursor.0));
    }
    fn poll_event(&mut self) -> Result<Event, String> {
        Err("no events to return".to_string())
    }
}

#[test]
fn paint_helpers_position_color_then_write() {
    let mut t = LogTerm::new();
    twrite(&mut t, 2, 3, "hi");
    tinput(&mut t, 15, 1, "42");
    terror(&mut t, 14, 1, "oops");
    tclear(&mut t, 14, 1);
    let log = t.log.borrow().clone();
    assert_eq!(
        log,
        vec![
            "write \"hi\" at (2, 3) colors (Black, White)".to_string(),
            "write \"42\" at (15, 1) colors (Black, Green)".to_string(),
            "write \"oops\" at (14, 1) colors (Black, Red)".to_string(),
            "clear row 14".to_string(),
        ]
    );
}

#[test]
fn replay_performs_each_paint_operation_in_order() {
    let mut t = LogTerm::new();
    let ops = vec![
        PaintOp::ClearRow { row: 12 },
        PaintOp::Text { row: 12, col: 0, text: "01: ".to_string() },
        PaintOp::InputText { row: 15, col: 1, text: "3".to_string() },
        PaintOp::ErrorText { row: 14, col: 1, text: "need more operands".to_string() },
    ];
    replay(&mut t, &ops);
    let log = t.log.borrow().clone();
    assert_eq!(
        log,
        vec![
            "clear row 12".to_string(),
            "write \"01: \" at (12, 0) colors (Black, White)".to_string(),
            "write \"3\" at (15, 1) colors (Black, Green)".to_string(),
            "write \"need more operands\" at (14, 1) colors (Black, Red)".to_string(),
        ]
    );
}
