use tiliqua_fw::mbsid::frame::{diff, Frame, PaintOp, TextLine};

fn f(items: &[(i32, i32, bool, &str)]) -> Frame {
    let mut fr = Frame::default();
    for &(x, y, b, t) in items {
        fr.push(x, y, b, t);
    }
    fr
}

#[test]
fn identical_frames_produce_no_ops() {
    let a = f(&[(60, 80, true, "MBSID  Patch"), (60, 104, false, "  Card     Main")]);
    let b = a.clone();
    assert!(diff(&a, &b).is_empty());
}

#[test]
fn style_only_change_is_single_draw_no_erase() {
    let a = f(&[(60, 104, false, "  Card     Main")]);
    let b = f(&[(60, 104, true, "  Card     Main")]);
    let ops = diff(&a, &b);
    assert_eq!(ops.len(), 1);
    assert_eq!(ops[0], PaintOp::Draw(0));
}

#[test]
fn text_change_is_erase_then_draw() {
    let a = f(&[(60, 104, true, "> Card     Main")]);
    let b = f(&[(60, 104, true, "# Card     Main")]);
    let ops = diff(&a, &b);
    assert_eq!(&ops[..], &[PaintOp::Erase(0), PaintOp::Draw(0)]);
}

#[test]
fn vanished_item_is_erase_only() {
    let a = f(&[(60, 80, true, "title"), (60, 248, true, "SAVED U000")]);
    let b = f(&[(60, 80, true, "title")]);
    let ops = diff(&a, &b);
    assert_eq!(&ops[..], &[PaintOp::Erase(1)]);
}

#[test]
fn appeared_item_is_draw_only() {
    let a = f(&[(60, 80, true, "title")]);
    let b = f(&[(60, 80, true, "title"), (60, 248, true, "SAVED U000")]);
    let ops = diff(&a, &b);
    assert_eq!(&ops[..], &[PaintOp::Draw(1)]);
}

#[test]
fn all_erases_precede_all_draws() {
    let a = f(&[(60, 104, true, "old A"), (60, 128, false, "old B")]);
    let b = f(&[(60, 104, true, "new A"), (60, 128, false, "new B")]);
    let ops = diff(&a, &b);
    let first_draw = ops.iter().position(|o| matches!(o, PaintOp::Draw(_))).unwrap();
    assert!(ops[..first_draw].iter().all(|o| matches!(o, PaintOp::Erase(_))));
    assert!(ops[first_draw..].iter().all(|o| matches!(o, PaintOp::Draw(_))));
}

#[test]
fn moved_item_erased_at_old_position_drawn_at_new() {
    let a = f(&[(60, 224, true, "> Save     Cancel")]);
    let b = f(&[(60, 248, true, "> Save     Cancel")]);
    let ops = diff(&a, &b);
    assert_eq!(&ops[..], &[PaintOp::Erase(0), PaintOp::Draw(0)]);
}

#[test]
fn frame_push_drops_items_past_twelve_and_overlong_text() {
    let mut fr = Frame::default();
    for i in 0..14 {
        fr.push(0, i * 10, false, "x");
    }
    assert_eq!(fr.items.len(), 12);
    let mut g = Frame::default();
    let long = "0123456789012345678901234567890123456789012345678";
    assert_eq!(long.len(), 49);
    g.push(1, 2, true, long);
    assert_eq!(g.items.len(), 1);
    assert_eq!(g.items[0].text.as_str(), "");
}

#[test]
fn frame_diff_against_empty_draws_everything_in_order() {
    let a = Frame::default();
    let b = f(&[(1, 1, false, "a"), (1, 2, false, "b"), (1, 3, true, "c")]);
    let ops = diff(&a, &b);
    assert_eq!(&ops[..], &[PaintOp::Draw(0), PaintOp::Draw(1), PaintOp::Draw(2)]);
    let back = diff(&b, &a);
    assert_eq!(&back[..], &[PaintOp::Erase(0), PaintOp::Erase(1), PaintOp::Erase(2)]);
}

#[test]
fn text_line_matches_format_widths() {
    let mut l = TextLine::new();
    l.add_str("Program  ");
    l.add_dec(5, 3);
    l.add_char(' ');
    l.add_left("Lead", 6);
    l.add_char('|');
    assert_eq!(l.line(), format!("Program  {:03} {:<6}|", 5, "Lead"));
    let mut w = TextLine::new();
    w.add_dec(12345, 3);
    w.add_left("LongerThanWidth", 4);
    assert_eq!(w.into_line().as_str(), format!("{:03}{:<4}", 12345, "LongerThanWidth"));
}

#[test]
fn text_line_overflow_keeps_what_fit_before() {
    let mut l = TextLine::new();
    l.add_str("0123456789012345678901234567890123456789");
    l.add_str("0123456789");
    l.add_str("x");
    // The second piece no longer fits: it and everything after are dropped.
    assert_eq!(l.line(), "0123456789012345678901234567890123456789");
}
