use egui_dropdown::dropdown::{DropDownBox, FrameInput};
use egui_dropdown::filter::{contains_chars, passes_filter};

fn items(names: &[&str]) -> Vec<String> {
    names.iter().map(|s| s.to_string()).collect()
}

#[test]
fn filter_is_case_insensitive() {
    assert!(passes_filter(true, "AP", "apple"));
    assert!(passes_filter(true, "ap", "Apricot"));
    assert!(!passes_filter(true, "ap", "banana"));
}

#[test]
fn filter_uses_real_lowercasing() {
    // Would fail if lowercasing handed its argument back unchanged.
    assert!(passes_filter(true, "WORLD", "hello world"));
    assert!(passes_filter(true, "ÉCOLE", "l'école"));
}

#[test]
fn filter_off_or_empty_buffer_shows_everything() {
    assert!(passes_filter(false, "zzz", "banana"));
    assert!(passes_filter(true, "", "banana"));
}

#[test]
fn contains_chars_finds_substrings() {
    let hay: Vec<char> = "hello".chars().collect();
    assert!(contains_chars(&hay, &"ell".chars().collect()));
    assert!(contains_chars(&hay, &"hello".chars().collect()));
    assert!(contains_chars(&hay, &Vec::new()));
    assert!(!contains_chars(&hay, &"elx".chars().collect()));
    assert!(!contains_chars(&hay, &"helloo".chars().collect()));
}

#[test]
fn example_filter_then_commit() {
    let b = DropDownBox::from_iter(items(&["apple", "banana", "apricot"]), "seed");
    let mut buf = "ap".to_string();

    let out = b.ui(
        &mut buf,
        &FrameInput { gained_focus: false, popup_open: true, clicks: vec![false, false, false] },
    );
    assert_eq!(out.rendered, vec![true, false, true]);
    assert!(!out.value_changed);
    assert!(!out.close_popup);
    assert_eq!(buf, "ap");

    let out = b.ui(
        &mut buf,
        &FrameInput { gained_focus: false, popup_open: true, clicks: vec![false, false, true] },
    );
    assert_eq!(buf, "apricot");
    assert!(out.value_changed);
    assert!(out.close_popup);
}

#[test]
fn focus_gain_always_requests_open() {
    for filter in [false, true] {
        for select in [false, true] {
            let b = DropDownBox::from_iter(items(&["x"]), "seed")
                .filter_by_input(filter)
                .select_on_focus(select);
            let mut buf = String::new();
            let out = b.ui(
                &mut buf,
                &FrameInput { gained_focus: true, popup_open: false, clicks: vec![false] },
            );
            assert!(out.open_popup);
        }
    }
}

#[test]
fn no_focus_gain_requests_nothing() {
    let b = DropDownBox::from_iter(items(&["x"]), "seed").select_on_focus(true);
    let mut buf = "abc".to_string();
    let out = b.ui(
        &mut buf,
        &FrameInput { gained_focus: false, popup_open: true, clicks: vec![false] },
    );
    assert!(!out.open_popup);
    assert_eq!(out.select_range, None);
}

#[test]
fn select_on_focus_spans_whole_buffer() {
    let b = DropDownBox::from_iter(items(&["x"]), "seed").select_on_focus(true);
    let mut buf = "ap".to_string();
    let out = b.ui(
        &mut buf,
        &FrameInput { gained_focus: true, popup_open: false, clicks: vec![false] },
    );
    assert_eq!(out.select_range, Some((0, 2)));

    // The range counts characters, not bytes.
    let mut buf = "héllo".to_string();
    let out = b.ui(
        &mut buf,
        &FrameInput { gained_focus: true, popup_open: false, clicks: vec![false] },
    );
    assert_eq!(out.select_range, Some((0, 5)));
}

#[test]
fn select_on_focus_disabled_writes_nothing() {
    let b = DropDownBox::from_iter(items(&["x"]), "seed");
    let mut buf = "ap".to_string();
    let out = b.ui(
        &mut buf,
        &FrameInput { gained_focus: true, popup_open: false, clicks: vec![false] },
    );
    assert_eq!(out.select_range, None);
    assert!(out.open_popup);
}

#[test]
fn no_click_leaves_buffer_untouched() {
    let b = DropDownBox::from_iter(items(&["alpha", "beta"]), "seed").filter_by_input(false);
    let mut buf = "typed".to_string();
    let out = b.ui(
        &mut buf,
        &FrameInput { gained_focus: false, popup_open: true, clicks: vec![false, false] },
    );
    assert_eq!(buf, "typed");
    assert!(!out.value_changed);
    assert!(!out.close_popup);
}

#[test]
fn closed_popup_shows_no_rows() {
    let b = DropDownBox::from_iter(items(&["alpha", "beta"]), "seed").filter_by_input(false);
    let mut buf = String::new();
    let out = b.ui(
        &mut buf,
        &FrameInput { gained_focus: false, popup_open: false, clicks: vec![true, true] },
    );
    assert_eq!(out.rendered, vec![false, false]);
    assert_eq!(buf, "");
    assert!(!out.value_changed);
}

#[test]
fn commit_overwrites_buffer_entirely() {
    let b = DropDownBox::from_iter(items(&["pear"]), "seed").filter_by_input(false);
    let mut buf = "long prior contents".to_string();
    let out = b.ui(
        &mut buf,
        &FrameInput { gained_focus: false, popup_open: true, clicks: vec![true] },
    );
    assert_eq!(buf, "pear");
    assert!(out.value_changed);
    assert!(out.close_popup);
}

#[test]
fn last_click_in_order_wins() {
    let b = DropDownBox::from_iter(items(&["one", "two", "three"]), "seed").filter_by_input(false);
    let mut buf = String::new();
    let out = b.ui(
        &mut buf,
        &FrameInput { gained_focus: false, popup_open: true, clicks: vec![true, false, true] },
    );
    assert_eq!(buf, "three");
    assert!(out.value_changed);
}

#[test]
fn commit_refilters_later_rows() {
    // Once "apple" is committed, "apricot" no longer passes the filter
    // against the overwritten buffer, so its row is not shown.
    let b = DropDownBox::from_iter(items(&["apple", "apricot"]), "seed");
    let mut buf = "ap".to_string();
    let out = b.ui(
        &mut buf,
        &FrameInput { gained_focus: false, popup_open: true, clicks: vec![true, true] },
    );
    assert_eq!(buf, "apple");
    assert_eq!(out.rendered, vec![true, false]);
    assert!(out.value_changed);
}

#[test]
fn empty_item_list_is_fine() {
    let b = DropDownBox::from_iter(Vec::new(), "seed");
    let mut buf = "ap".to_string();
    let out = b.ui(
        &mut buf,
        &FrameInput { gained_focus: true, popup_open: false, clicks: Vec::new() },
    );
    assert!(out.rendered.is_empty());
    assert_eq!(buf, "ap");
    assert!(!out.value_changed);
}

#[test]
fn same_seed_same_identity() {
    let a = DropDownBox::from_iter(items(&["x"]), "seed");
    let b = DropDownBox::from_iter(items(&["y", "z"]), "seed");
    assert_eq!(a.popup_id, b.popup_id);
}

#[test]
fn distinct_seeds_distinct_identities() {
    let a = DropDownBox::from_iter(items(&["x"]), "seed-a");
    let b = DropDownBox::from_iter(items(&["x"]), "seed-b");
    assert_ne!(a.popup_id, b.popup_id);
}

#[test]
fn builder_flags_take_effect() {
    let b = DropDownBox::from_iter(items(&["x"]), "seed");
    assert!(b.filter_by_input);
    assert!(!b.select_on_focus);
    let b = b.filter_by_input(false).select_on_focus(true);
    assert!(!b.filter_by_input);
    assert!(b.select_on_focus);
}
