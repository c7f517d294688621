use ripple::platform::Key;
use ripple::repl::CalcError;
use ripple::session::{BinOp, HostCall, Session};

fn bits(x: f64) -> u64 {
    x.to_bits()
}

/// Answer a host call the way the host loop would: parse with the real
/// float parser, compute with the real float operators.
fn answer(sess: &mut Session, call: HostCall) {
    match call {
        HostCall::Done => {}
        HostCall::Parse(text) => {
            sess.parsed(text.parse::<f64>().ok().map(|f| f.to_bits()));
        }
        HostCall::Compute(op, x, y) => {
            let (a, b) = (f64::from_bits(x), f64::from_bits(y));
            let r = match op {
                BinOp::Add => a + b,
                BinOp::Sub => a - b,
                BinOp::Mul => a * b,
                BinOp::Div => a / b,
            };
            sess.computed(r.to_bits());
        }
    }
}

fn type_keys(sess: &mut Session, keys: &str) {
    for c in keys.chars() {
        let call = sess.on_key(Key::Char(c));
        answer(sess, call);
    }
}

fn press_enter(sess: &mut Session) {
    let call = sess.on_key(Key::Enter);
    assert!(matches!(call, HostCall::Parse(_)));
    answer(sess, call);
}

#[test]
fn three_enter_four_enter_plus_gives_seven() {
    let mut s = Session::new();
    type_keys(&mut s, "3");
    press_enter(&mut s);
    type_keys(&mut s, "4");
    press_enter(&mut s);
    let call = s.on_key(Key::Char('+'));
    assert_eq!(call, HostCall::Compute(BinOp::Add, bits(3.0), bits(4.0)));
    answer(&mut s, call);
    assert_eq!(s.stack_values().clone(), vec![bits(7.0)]);
    assert_eq!(s.error(), None);
}

#[test]
fn drop_on_empty_stack_reports_insufficient_operands() {
    let mut s = Session::new();
    let call = s.on_key(Key::Char('d'));
    assert_eq!(call, HostCall::Done);
    assert_eq!(s.error(), Some(CalcError::InsufficientOperands));
    assert!(s.stack_values().is_empty());
}

#[test]
fn negate_twice_leaves_two() {
    let mut s = Session::new();
    type_keys(&mut s, "2");
    press_enter(&mut s);
    type_keys(&mut s, "nn");
    assert_eq!(s.stack_values().clone(), vec![bits(2.0)]);
    assert_eq!(s.error(), None);
}

#[test]
fn five_backspace_enter_is_a_parse_failure() {
    let mut s = Session::new();
    type_keys(&mut s, "5");
    let call = s.on_key(Key::Backspace);
    assert_eq!(call, HostCall::Done);
    assert_eq!(s.buffer_text(), "");
    let call = s.on_key(Key::Enter);
    match &call {
        HostCall::Parse(text) => assert_eq!(text, ""),
        other => panic!("expected a parse request, got {:?}", other),
    }
    answer(&mut s, call);
    assert_eq!(s.error(), Some(CalcError::ParseFailure));
    assert!(s.stack_values().is_empty());
}

#[test]
fn commit_clears_the_buffer_even_on_failure() {
    let mut s = Session::new();
    type_keys(&mut s, "1.2.3");
    assert_eq!(s.buffer_text(), "1.2.3");
    press_enter(&mut s);
    assert_eq!(s.error(), Some(CalcError::ParseFailure));
    assert_eq!(s.buffer_text(), "");
    assert!(s.stack_values().is_empty());
}

#[test]
fn committed_tokens_stack_in_order() {
    let mut s = Session::new();
    type_keys(&mut s, "1.5");
    press_enter(&mut s);
    type_keys(&mut s, "2");
    press_enter(&mut s);
    type_keys(&mut s, "0.25");
    press_enter(&mut s);
    assert_eq!(
        s.stack_values().clone(),
        vec![bits(1.5), bits(2.0), bits(0.25)]
    );
}

#[test]
fn quit_key_stops_the_loop() {
    let mut s = Session::new();
    assert!(s.is_running());
    let call = s.on_key(Key::Char('q'));
    assert_eq!(call, HostCall::Done);
    assert!(!s.is_running());
}

#[test]
fn unrecognized_key_only_sets_the_error_row() {
    let mut s = Session::new();
    type_keys(&mut s, "7");
    let call = s.on_key(Key::Char('z'));
    assert_eq!(call, HostCall::Done);
    assert_eq!(s.error(), Some(CalcError::UnhandledKey));
    assert_eq!(s.buffer_text(), "7");
    assert!(s.stack_values().is_empty());
}

#[test]
fn a_good_key_clears_the_error_row() {
    let mut s = Session::new();
    s.on_key(Key::Char('z'));
    assert_eq!(s.error(), Some(CalcError::UnhandledKey));
    s.on_key(Key::Char('1'));
    assert_eq!(s.error(), None);
}

#[test]
fn operator_on_short_stack_asks_for_no_computation() {
    let mut s = Session::new();
    type_keys(&mut s, "1");
    press_enter(&mut s);
    for c in "+-*/".chars() {
        let call = s.on_key(Key::Char(c));
        assert_eq!(call, HostCall::Done);
        assert_eq!(s.error(), Some(CalcError::InsufficientOperands));
        assert_eq!(s.stack_values().clone(), vec![bits(1.0)]);
    }
}

#[test]
fn each_operator_key_maps_to_its_operator() {
    for (c, op, want) in [
        ('+', BinOp::Add, 6.0),
        ('-', BinOp::Sub, 2.0),
        ('*', BinOp::Mul, 8.0),
        ('/', BinOp::Div, 2.0),
    ] {
        let mut s = Session::new();
        type_keys(&mut s, "4");
        press_enter(&mut s);
        type_keys(&mut s, "2");
        press_enter(&mut s);
        let call = s.on_key(Key::Char(c));
        assert_eq!(call, HostCall::Compute(op, bits(4.0), bits(2.0)));
        answer(&mut s, call);
        assert_eq!(s.stack_values().clone(), vec![bits(want)]);
    }
}
