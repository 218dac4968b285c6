use eframe_text_agent::agent::{clear_edit_context_buffer, ContextCommand, EditContextAgent, ImeOutput, TextInputEvent};
use eframe_text_agent::geometry::RectBits;

fn rect(x: f32, y: f32, w: f32, h: f32) -> RectBits {
    RectBits { min_x: x.to_bits(), min_y: y.to_bits(), max_x: (x + w).to_bits(), max_y: (y + h).to_bits() }
}

fn ime(text: &str, primary: usize, secondary: usize) -> ImeOutput {
    ImeOutput {
        rect: rect(10.0, 20.0, 100.0, 16.0),
        cursor_rect: rect(30.0, 20.0, 1.0, 16.0),
        text: text.to_string(),
        cursor_primary: primary,
        cursor_secondary: secondary,
    }
}

#[test]
fn new_agent_is_unfocused() {
    let a = EditContextAgent::new();
    assert!(!a.has_focus());
    assert!(!a.is_composing());
}

#[test]
fn focus_without_ime_attaches_and_focuses() {
    let mut a = EditContextAgent::new();
    assert_eq!(a.focus("stale"), vec![ContextCommand::Attach, ContextCommand::FocusCanvas]);
    assert!(a.has_focus());
}

#[test]
fn focus_twice_does_nothing_the_second_time() {
    let mut a = EditContextAgent::new();
    a.focus("");
    assert_eq!(a.focus(""), vec![]);
    assert!(a.has_focus());
}

#[test]
fn blur_when_unfocused_does_nothing() {
    let mut a = EditContextAgent::new();
    assert_eq!(a.blur("abc"), vec![]);
    assert!(!a.has_focus());
}

#[test]
fn blur_clears_buffer_and_detaches() {
    let mut a = EditContextAgent::new();
    a.focus("");
    let cmds = a.blur("a\u{1F600}");
    assert_eq!(
        cmds,
        vec![
            ContextCommand::UpdateText { range_start: 0, range_end: 3, text: String::new() },
            ContextCommand::UpdateSelection { start: 0, end: 0 },
            ContextCommand::Detach,
        ]
    );
    assert!(!a.has_focus());
}

#[test]
fn blur_with_empty_buffer_only_detaches() {
    let mut a = EditContextAgent::new();
    a.focus("");
    assert_eq!(a.blur(""), vec![ContextCommand::Detach]);
}

#[test]
fn clear_buffer_commands() {
    assert_eq!(clear_edit_context_buffer(""), vec![]);
    assert_eq!(
        clear_edit_context_buffer("xy"),
        vec![
            ContextCommand::UpdateText { range_start: 0, range_end: 2, text: String::new() },
            ContextCommand::UpdateSelection { start: 0, end: 0 },
        ]
    );
}

#[test]
fn set_focus_dispatches() {
    let mut a = EditContextAgent::new();
    assert_eq!(a.set_focus(true, ""), vec![ContextCommand::Attach, ContextCommand::FocusCanvas]);
    assert!(a.has_focus());
    assert_eq!(a.set_focus(false, ""), vec![ContextCommand::Detach]);
    assert!(!a.has_focus());
}

#[test]
fn move_to_syncs_buffer_selection_and_bounds() {
    let mut a = EditContextAgent::new();
    let i = ime("\u{1F600}ab", 2, 1);
    let cmds = a.move_to(Some(i), "old");
    assert_eq!(
        cmds,
        vec![
            ContextCommand::UpdateText { range_start: 0, range_end: 3, text: "\u{1F600}ab".to_string() },
            ContextCommand::UpdateSelection { start: 3, end: 2 },
            ContextCommand::UpdateBounds { rect: rect(10.0, 20.0, 100.0, 16.0), cursor_rect: rect(30.0, 20.0, 1.0, 16.0) },
        ]
    );
}

#[test]
fn move_to_same_output_acts_once() {
    let mut a = EditContextAgent::new();
    a.move_to(Some(ime("abc", 1, 1)), "");
    assert_eq!(a.move_to(Some(ime("abc", 1, 1)), "abc"), vec![]);
    assert_eq!(a.move_to(None, "abc"), vec![]);
    assert_eq!(a.move_to(None, "abc"), vec![]);
}

#[test]
fn move_to_with_nan_rect_acts_every_frame() {
    let mut a = EditContextAgent::new();
    let mut i = ime("abc", 1, 1);
    i.rect.max_x = f32::NAN.to_bits();
    let first = a.move_to(Some(i), "");
    assert_eq!(first.len(), 3);
    let mut j = ime("abc", 1, 1);
    j.rect.max_x = f32::NAN.to_bits();
    assert_eq!(a.move_to(Some(j), "abc").len(), 3);
}

#[test]
fn move_to_none_initially_does_nothing() {
    let mut a = EditContextAgent::new();
    assert_eq!(a.move_to(None, "x"), vec![]);
}

#[test]
fn move_to_during_composition_only_updates_bounds() {
    let mut a = EditContextAgent::new();
    assert_eq!(a.on_composition_start(), TextInputEvent::ImeEnabled);
    assert!(a.is_composing());
    let cmds = a.move_to(Some(ime("abc", 1, 1)), "ab");
    assert_eq!(
        cmds,
        vec![ContextCommand::UpdateBounds { rect: rect(10.0, 20.0, 100.0, 16.0), cursor_rect: rect(30.0, 20.0, 1.0, 16.0) }]
    );
}

#[test]
fn focus_refills_from_last_ime_output() {
    let mut a = EditContextAgent::new();
    a.move_to(Some(ime("h\u{e9}", 2, 0)), "");
    let cmds = a.focus("");
    assert_eq!(
        cmds,
        vec![
            ContextCommand::Attach,
            ContextCommand::UpdateText { range_start: 0, range_end: 0, text: "h\u{e9}".to_string() },
            ContextCommand::UpdateSelection { start: 2, end: 0 },
            ContextCommand::FocusCanvas,
        ]
    );
}

#[test]
fn blur_ends_composition() {
    let mut a = EditContextAgent::new();
    a.focus("");
    a.on_composition_start();
    a.blur("");
    assert!(!a.is_composing());
}

#[test]
fn text_update_while_composing_is_preedit() {
    let mut a = EditContextAgent::new();
    a.on_composition_start();
    assert_eq!(
        a.on_text_update(Some("ni".to_string()), "xni".to_string(), 3),
        TextInputEvent::Preedit("ni".to_string())
    );
    assert_eq!(a.on_text_update(None, "x".to_string(), 1), TextInputEvent::Preedit(String::new()));
}

#[test]
fn text_update_outside_composition_is_text_changed() {
    let a = EditContextAgent::new();
    assert_eq!(
        a.on_text_update(Some("b".to_string()), "a\u{1F600}b".to_string(), 3),
        TextInputEvent::TextChanged { text: "a\u{1F600}b".to_string(), cursor: 2 }
    );
}

#[test]
fn composition_end_commits_nonempty_text() {
    let mut a = EditContextAgent::new();
    a.on_composition_start();
    assert_eq!(a.on_composition_end("\u{4e2d}".to_string()), Some(TextInputEvent::Commit("\u{4e2d}".to_string())));
    assert!(!a.is_composing());
    a.on_composition_start();
    assert_eq!(a.on_composition_end(String::new()), None);
    assert!(!a.is_composing());
}

#[test]
fn cursor_comes_back_through_text_update() {
    let mut a = EditContextAgent::new();
    let text = "x\u{1F44D}\u{1F3FD}y";
    let cmds = a.move_to(Some(ime(text, 3, 3)), "");
    let start = match &cmds[1] {
        ContextCommand::UpdateSelection { start, .. } => *start,
        other => panic!("unexpected command {:?}", other),
    };
    assert_eq!(
        a.on_text_update(None, text.to_string(), start),
        TextInputEvent::TextChanged { text: text.to_string(), cursor: 3 }
    );
}
