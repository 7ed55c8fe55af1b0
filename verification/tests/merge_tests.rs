use alacritty_themes::colors::{
    ColorScheme, Colors, CursorColors, PrimaryColors, merge_color_scheme, merge_colors,
};

fn s(v: &str) -> Option<String> {
    Some(v.to_string())
}

fn scheme_none() -> ColorScheme {
    ColorScheme {
        black: None,
        blue: None,
        cyan: None,
        green: None,
        magenta: None,
        red: None,
        white: None,
        yellow: None,
    }
}

fn base_colors() -> Colors {
    Colors {
        bright: Some(ColorScheme { red: s("#aa0000"), blue: s("#0000aa"), ..scheme_none() }),
        cursor: Some(CursorColors { cursor: s("#cccccc"), text: None }),
        normal: None,
        primary: Some(PrimaryColors { background: s("#000000"), foreground: s("#eeeeee") }),
    }
}

fn override_colors() -> Colors {
    Colors {
        bright: Some(ColorScheme { red: s("#ff0000"), ..scheme_none() }),
        cursor: None,
        normal: Some(ColorScheme { green: s("#00ff00"), ..scheme_none() }),
        primary: Some(PrimaryColors { background: s("#112233"), foreground: None }),
    }
}

#[test]
fn override_wins_where_it_has_an_opinion() {
    let m = merge_colors(&base_colors(), &override_colors());
    let bright = m.bright.expect("bright present");
    assert_eq!(bright.red, s("#ff0000"));
    assert_eq!(bright.blue, s("#0000aa"));
    assert_eq!(bright.black, None);
}

#[test]
fn nested_records_merge_field_by_field_not_as_blocks() {
    // A preset that customises only one slot must not discard the base's
    // other slots of the same nested record.
    let m = merge_colors(&base_colors(), &override_colors());
    let primary = m.primary.expect("primary present");
    assert_eq!(primary.background, s("#112233"));
    assert_eq!(primary.foreground, s("#eeeeee"));
}

#[test]
fn one_sided_records_are_taken_whole() {
    let m = merge_colors(&base_colors(), &override_colors());
    // Present only on the base side.
    let cursor = m.cursor.expect("cursor present");
    assert_eq!(cursor.cursor, s("#cccccc"));
    assert_eq!(cursor.text, None);
    // Present only on the override side.
    let normal = m.normal.expect("normal present");
    assert_eq!(normal.green, s("#00ff00"));
}

#[test]
fn absent_on_both_sides_stays_absent() {
    let mut b = base_colors();
    let mut o = override_colors();
    b.bright = None;
    o.bright = None;
    let m = merge_colors(&b, &o);
    assert!(m.bright.is_none());
}

#[test]
fn scheme_merge_prefers_custom_slot_by_slot() {
    let custom = ColorScheme { red: s("#ff0000"), yellow: s("#ffff00"), ..scheme_none() };
    let default = ColorScheme { red: s("#880000"), white: s("#ffffff"), ..scheme_none() };
    let m = merge_color_scheme(&custom, &default);
    assert_eq!(m.red, s("#ff0000"));
    assert_eq!(m.yellow, s("#ffff00"));
    assert_eq!(m.white, s("#ffffff"));
    assert_eq!(m.black, None);
}

#[test]
fn merge_is_idempotent_in_the_override() {
    let b = base_colors();
    let o = override_colors();
    let once = merge_colors(&b, &o);
    let twice = merge_colors(&b, &once);
    assert_eq!(twice, once);
}

#[test]
fn empty_override_is_the_identity() {
    let b = base_colors();
    let m = merge_colors(&b, &Colors::empty());
    assert_eq!(m, base_colors());
}

#[test]
fn empty_base_is_the_identity() {
    let o = override_colors();
    let m = merge_colors(&Colors::empty(), &o);
    assert_eq!(m, override_colors());
}

#[test]
fn changing_one_leaf_changes_at_most_that_leaf() {
    let b = base_colors();
    let o = override_colors();
    let mut o2 = override_colors();
    // Change a single leaf of the override.
    o2.primary = Some(PrimaryColors { background: s("#445566"), foreground: None });
    let m = merge_colors(&b, &o);
    let m2 = merge_colors(&b, &o2);
    // That leaf of the merge follows.
    assert_eq!(m2.primary.as_ref().unwrap().background, s("#445566"));
    // Every other leaf of the merge is unchanged.
    assert_eq!(m2.primary.as_ref().unwrap().foreground, m.primary.as_ref().unwrap().foreground);
    assert_eq!(m2.bright, m.bright);
    assert_eq!(m2.normal, m.normal);
    assert_eq!(m2.cursor, m.cursor);
}

#[test]
fn adding_a_leaf_under_an_absent_record_keeps_all_other_leaves() {
    let b = base_colors();
    let mut o = override_colors();
    o.bright = None;
    let m = merge_colors(&b, &o);
    // Now give the override a bright record with a single opinion.
    let mut o2 = o.clone();
    o2.bright = Some(ColorScheme { blue: s("#123456"), ..scheme_none() });
    let m2 = merge_colors(&b, &o2);
    assert_eq!(m2.bright.as_ref().unwrap().blue, s("#123456"));
    // The base's other bright slots still shine through, as before.
    assert_eq!(m2.bright.as_ref().unwrap().red, m.bright.as_ref().unwrap().red);
    assert_eq!(m2.bright.as_ref().unwrap().black, m.bright.as_ref().unwrap().black);
    assert_eq!(m2.primary, m.primary);
    assert_eq!(m2.normal, m.normal);
    assert_eq!(m2.cursor, m.cursor);
}

#[test]
fn merge_scenario_primary_pair() {
    // Base supplies only a background; the preset overrides it and adds a
    // foreground.
    let b = Colors {
        bright: None,
        cursor: None,
        normal: None,
        primary: Some(PrimaryColors { background: s("#000000"), foreground: None }),
    };
    let o = Colors {
        bright: None,
        cursor: None,
        normal: None,
        primary: Some(PrimaryColors { background: s("#112233"), foreground: s("#ffffff") }),
    };
    let m = merge_colors(&b, &o);
    let primary = m.primary.expect("primary present");
    assert_eq!(primary.background, s("#112233"));
    assert_eq!(primary.foreground, s("#ffffff"));
    assert!(m.bright.is_none() && m.normal.is_none() && m.cursor.is_none());
}

#[test]
fn structurally_empty_record_is_recognised() {
    assert!(Colors::empty().is_structurally_empty());
    let mut c = Colors::empty();
    c.normal = Some(scheme_none());
    assert!(!c.is_structurally_empty());
}
