use alacritty_themes::colors::{ColorScheme, Colors, PrimaryColors, merge_colors};
use alacritty_themes::input::{InputEvent, KeyPress, MouseAction};
use alacritty_themes::session::{SessionState, SessionStatus};

fn s(v: &str) -> Option<String> {
    Some(v.to_string())
}

fn scheme_none() -> ColorScheme {
    ColorScheme {
        black: None,
        blue: None,
        cyan: None,
        green: None,
        magenta: None,
        red: None,
        white: None,
        yellow: None,
    }
}

fn colors_with_background(bg: &str) -> Colors {
    Colors {
        bright: None,
        cursor: None,
        normal: None,
        primary: Some(PrimaryColors { background: s(bg), foreground: None }),
    }
}

fn defaults() -> Colors {
    Colors {
        bright: Some(ColorScheme { red: s("#aa0000"), ..scheme_none() }),
        cursor: None,
        normal: None,
        primary: Some(PrimaryColors { background: s("#101010"), foreground: s("#f0f0f0") }),
    }
}

fn snapshot() -> Colors {
    colors_with_background("#original")
}

/// Fifty presets, each with its own background colour.
fn presets() -> Vec<Colors> {
    (0..50).map(|i| colors_with_background(&format!("#{i:06}"))).collect()
}

/// One loop iteration as the event loop performs it: bring the preview up to
/// date (every preset loads), then dispatch the event. Returns the status,
/// writing through `doc`, the modelled colour section of the external
/// document.
fn run_tick(
    session: &mut SessionState,
    themes: &[Colors],
    doc: &mut Colors,
    ev: &InputEvent,
) -> SessionStatus {
    if let Some(i) = session.preview_target() {
        if let Some(written) = session.apply_preview(Some(&themes[i])) {
            *doc = written;
        }
    }
    let status = session.handle_input(ev, 80, 15, themes.len());
    if status == SessionStatus::Cancelled {
        *doc = session.rollback_colors();
    }
    status
}

#[test]
fn esc_as_first_event_restores_the_document_exactly() {
    // The very first iteration previews preset 0, overwriting the section;
    // Esc must bring back byte-for-byte what the snapshot held.
    let themes = presets();
    let mut session = SessionState::new(snapshot(), defaults());
    let mut doc = snapshot();
    let status = run_tick(&mut session, &themes, &mut doc, &InputEvent::Key(KeyPress::Esc));
    assert_eq!(status, SessionStatus::Cancelled);
    assert_eq!(doc, snapshot());
}

#[test]
fn cancel_after_many_previews_restores_the_document() {
    let themes = presets();
    let mut session = SessionState::new(snapshot(), defaults());
    let mut doc = snapshot();
    let events = [
        InputEvent::Key(KeyPress::Down),
        InputEvent::Key(KeyPress::PageDown),
        InputEvent::Mouse(MouseAction::ScrollDown),
        InputEvent::Key(KeyPress::Up),
        InputEvent::Key(KeyPress::Esc),
    ];
    let mut last = SessionStatus::Browsing;
    for ev in &events {
        last = run_tick(&mut session, &themes, &mut doc, ev);
    }
    assert_eq!(last, SessionStatus::Cancelled);
    assert_eq!(doc, snapshot());
}

#[test]
fn confirm_leaves_the_selected_preset_merged_over_the_defaults() {
    let themes = presets();
    let mut session = SessionState::new(snapshot(), defaults());
    let mut doc = snapshot();
    let events = [
        InputEvent::Key(KeyPress::Down),
        InputEvent::Key(KeyPress::Down),
        InputEvent::Key(KeyPress::Down),
        InputEvent::Key(KeyPress::Enter),
    ];
    let mut last = SessionStatus::Browsing;
    for ev in &events {
        last = run_tick(&mut session, &themes, &mut doc, ev);
    }
    assert_eq!(last, SessionStatus::Confirmed);
    assert_eq!(session.selected, 3);
    assert_eq!(doc, merge_colors(&defaults(), &themes[3]));
    // The merge filled the preset's absent fields from the defaults.
    assert_eq!(doc.primary.as_ref().unwrap().background, s("#000003"));
    assert_eq!(doc.primary.as_ref().unwrap().foreground, s("#f0f0f0"));
    assert_eq!(doc.bright.as_ref().unwrap().red, s("#aa0000"));
}

#[test]
fn failed_preset_loads_keep_the_previous_preview_on_disk() {
    let themes = presets();
    let mut session = SessionState::new(snapshot(), defaults());
    let mut doc = snapshot();
    // First preview succeeds.
    let i = session.preview_target().expect("first preview pending");
    assert_eq!(i, 0);
    if let Some(written) = session.apply_preview(Some(&themes[0])) {
        doc = written;
    }
    let after_first = doc.clone();
    assert_eq!(session.handle_input(&InputEvent::Key(KeyPress::Down), 80, 15, 50), SessionStatus::Browsing);
    // The moved selection asks for a new preview, but the preset fails to
    // load: nothing is written, the previous preview stays.
    let j = session.preview_target().expect("second preview pending");
    assert_eq!(j, 1);
    assert!(session.apply_preview(None).is_none());
    assert_eq!(doc, after_first);
    // And the preview is considered up to date: no retry on the next tick.
    assert!(session.preview_target().is_none());
}

#[test]
fn unchanged_selection_is_not_previewed_twice() {
    let themes = presets();
    let mut session = SessionState::new(snapshot(), defaults());
    assert_eq!(session.preview_target(), Some(0));
    session.apply_preview(Some(&themes[0]));
    assert_eq!(session.preview_target(), None);
    // An ignored key changes nothing, so still no preview is owed.
    session.handle_input(&InputEvent::Key(KeyPress::Other), 80, 15, 50);
    assert_eq!(session.preview_target(), None);
}

#[test]
fn selection_stays_visible_through_any_navigation() {
    // Height 15 gives a ten-row window.
    let themes = presets();
    let mut session = SessionState::new(snapshot(), defaults());
    let mut doc = snapshot();
    let events = [
        InputEvent::Key(KeyPress::PageDown),
        InputEvent::Key(KeyPress::PageDown),
        InputEvent::Key(KeyPress::Up),
        InputEvent::Mouse(MouseAction::ScrollDown),
        InputEvent::Mouse(MouseAction::ScrollDown),
        InputEvent::Mouse(MouseAction::ScrollDown),
        InputEvent::Key(KeyPress::PageUp),
        InputEvent::Mouse(MouseAction::Press { column: 10, row: 4 }),
        InputEvent::Key(KeyPress::Down),
        InputEvent::Mouse(MouseAction::ScrollUp),
        InputEvent::Key(KeyPress::Up),
    ];
    for ev in &events {
        let status = run_tick(&mut session, &themes, &mut doc, ev);
        assert_eq!(status, SessionStatus::Browsing);
        assert!(session.view_offset <= session.selected);
        assert!(session.selected < session.view_offset + 10);
        assert!(session.view_offset <= 40);
    }
}

#[test]
fn walking_the_whole_list_down_renders_every_index_and_ends_at_the_bottom_window() {
    // Fifty presets, a ten-row window: walking from 0 to 49 by single steps
    // must scroll one row at a time (never skipping an index) and end with
    // the window on the last ten items.
    let themes = presets();
    let mut session = SessionState::new(snapshot(), defaults());
    let mut doc = snapshot();
    let mut rendered = [false; 50];
    for r in rendered.iter_mut().take(10) {
        *r = true;
    }
    for step in 0..49 {
        let before = session.view_offset;
        let status = run_tick(&mut session, &themes, &mut doc, &InputEvent::Key(KeyPress::Down));
        assert_eq!(status, SessionStatus::Browsing);
        assert_eq!(session.selected, step + 1);
        // The window never jumps, so no index is skipped over.
        assert!(session.view_offset == before || session.view_offset == before + 1);
        for i in session.view_offset..session.view_offset + 10 {
            rendered[i] = true;
        }
        assert!(session.view_offset <= session.selected);
        assert!(session.selected < session.view_offset + 10);
    }
    assert_eq!(session.selected, 49);
    assert_eq!(session.view_offset, 40);
    assert!(rendered.iter().all(|r| *r));
}

#[test]
fn rollback_colors_returns_the_snapshot_captured_at_entry() {
    let session = SessionState::new(snapshot(), defaults());
    assert_eq!(session.rollback_colors(), snapshot());
}
