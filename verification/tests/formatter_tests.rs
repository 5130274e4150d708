use exd_export::formatter::{format_string, ColorUsage, StyleKind, TagWriter, TextEvent};

#[test]
fn bold_run_is_tagged() {
    let events = vec![
        TextEvent::Style(StyleKind::Bold, true),
        TextEvent::Text("Hi".to_string()),
        TextEvent::Style(StyleKind::Bold, false),
    ];
    assert_eq!(format_string(&events), "<b>Hi</b>");
}

#[test]
fn unmatched_disable_produces_no_output() {
    let events = vec![
        TextEvent::Style(StyleKind::Bold, false),
        TextEvent::Style(StyleKind::Italic, false),
        TextEvent::Style(StyleKind::Bold, false),
    ];
    assert_eq!(format_string(&events), "");
}

#[test]
fn disable_closes_only_once_per_open() {
    let events = vec![
        TextEvent::Style(StyleKind::Bold, true),
        TextEvent::Text("x".to_string()),
        TextEvent::Style(StyleKind::Bold, false),
        TextEvent::Style(StyleKind::Bold, false),
    ];
    assert_eq!(format_string(&events), "<b>x</b>");
}

#[test]
fn italic_run_is_tagged() {
    let events = vec![
        TextEvent::Style(StyleKind::Italic, true),
        TextEvent::Text("slanted".to_string()),
        TextEvent::Style(StyleKind::Italic, false),
    ];
    assert_eq!(format_string(&events), "<i>slanted</i>");
}

#[test]
fn other_styles_are_ignored() {
    let events = vec![
        TextEvent::Style(StyleKind::Other, true),
        TextEvent::Text("plain".to_string()),
        TextEvent::Style(StyleKind::Other, false),
    ];
    assert_eq!(format_string(&events), "plain");
}

#[test]
fn foreground_color_becomes_bold_tag() {
    let events = vec![
        TextEvent::ColorPush(ColorUsage::Foreground),
        TextEvent::Text("red".to_string()),
        TextEvent::ColorPop(ColorUsage::Other),
    ];
    assert_eq!(format_string(&events), "<b>red</b>");
}

#[test]
fn foreground_pop_is_ignored() {
    let events = vec![
        TextEvent::ColorPush(ColorUsage::Other),
        TextEvent::Text("t".to_string()),
        TextEvent::ColorPop(ColorUsage::Foreground),
    ];
    assert_eq!(format_string(&events), "t");
}

#[test]
fn writer_accumulates_in_event_order() {
    let mut w = TagWriter::new();
    w.write_str("a");
    w.set_style(StyleKind::Bold, true);
    w.write_str("b");
    w.set_style(StyleKind::Bold, false);
    w.write_str("c");
    assert_eq!(w.buffer, "a<b>b</b>c");
}
