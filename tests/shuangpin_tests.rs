use shuangpin::{CodeTable, ShuangpinScheme, UserState};

fn pair(a: &str, b: &str) -> (String, String) {
    (a.to_string(), b.to_string())
}

#[test]
fn test_microsoft_scheme() {
    let scheme = ShuangpinScheme::microsoft();

    let result = scheme.get_initial_final("pin").unwrap();
    assert_eq!(result, ("p".to_string(), "n".to_string()));

    let result = scheme.get_initial_final("zhang").unwrap();
    assert_eq!(result, ("v".to_string(), "h".to_string()));

    let result = scheme.get_initial_final("zhi").unwrap();
    assert_eq!(result, ("z".to_string(), "v".to_string()));
}

#[test]
fn bare_vowel_is_not_found() {
    let scheme = ShuangpinScheme::microsoft();
    assert_eq!(scheme.get_initial_final("a"), None);
}

#[test]
fn empty_input_is_not_found() {
    let scheme = ShuangpinScheme::microsoft();
    assert_eq!(scheme.get_initial_final(""), None);
}

#[test]
fn lookup_is_repeatable() {
    let scheme = ShuangpinScheme::microsoft();
    for p in ["pin", "zhang", "zhi", "a", "xyz", "shuang", "lv"] {
        assert_eq!(scheme.get_initial_final(p), scheme.get_initial_final(p));
    }
}

#[test]
fn two_letter_initials_win() {
    let scheme = ShuangpinScheme::microsoft();
    assert_eq!(scheme.get_initial_final("chang"), Some(pair("i", "h")));
    assert_eq!(scheme.get_initial_final("shuang"), Some(pair("u", "d")));
    assert_eq!(scheme.get_initial_final("zhong"), Some(pair("v", "s")));
    assert_eq!(scheme.get_initial_final("zang"), Some(pair("z", "h")));
}

#[test]
fn special_finals_short_circuit() {
    let scheme = ShuangpinScheme::microsoft();
    assert_eq!(scheme.get_initial_final("zhi"), Some(pair("z", "v")));
    assert_eq!(scheme.get_initial_final("chi"), Some(pair("c", "i")));
    assert_eq!(scheme.get_initial_final("shi"), Some(pair("s", "u")));
    assert_eq!(scheme.get_initial_final("zi"), Some(pair("z", "zi")));
    assert_eq!(scheme.get_initial_final("ci"), Some(pair("c", "ci")));
    assert_eq!(scheme.get_initial_final("si"), Some(pair("s", "si")));
}

#[test]
fn unknown_final_or_initial_gives_nothing() {
    let scheme = ShuangpinScheme::microsoft();
    assert_eq!(scheme.get_initial_final("zhx"), None);
    assert_eq!(scheme.get_initial_final("van"), None);
    assert_eq!(scheme.get_initial_final("zh"), None);
    assert_eq!(scheme.get_initial_final("Pin"), None);
    assert_eq!(scheme.get_initial_final("pín"), None);
}

#[test]
fn multi_letter_finals() {
    let scheme = ShuangpinScheme::microsoft();
    assert_eq!(scheme.get_initial_final("liang"), Some(pair("l", "d")));
    assert_eq!(scheme.get_initial_final("xiong"), Some(pair("x", "s")));
    assert_eq!(scheme.get_initial_final("guan"), Some(pair("g", "r")));
    assert_eq!(scheme.get_initial_final("lv"), Some(pair("l", "v")));
}

#[test]
fn switch_to_unknown_scheme_keeps_microsoft() {
    let mut state = UserState::new();
    assert!(!state.switch_scheme("nonexistent"));
    assert_eq!(state.get_current_scheme().name, "微软双拼");
    assert!(!state.switch_scheme("Microsoft"));
    assert_eq!(state.get_current_scheme().name, "微软双拼");
}

#[test]
fn switch_to_microsoft_restores_it() {
    let mut state = UserState::new();
    state.scheme.name = "custom".to_string();
    state.scheme.finals = CodeTable::new();
    assert_eq!(state.get_shuangpin_code("pin").is_valid, false);
    assert!(state.switch_scheme("microsoft"));
    let current = state.get_current_scheme();
    assert_eq!(current.name, "微软双拼");
    assert_eq!(current.description, "微软双拼输入法方案");
    assert!(state.get_shuangpin_code("pin").is_valid);
}

#[test]
fn shuangpin_code_records() {
    let state = UserState::new();
    let ok = state.get_shuangpin_code("zhang");
    assert_eq!(ok.initial, "v");
    assert_eq!(ok.final_part, "h");
    assert!(ok.is_valid);
    let bad = state.get_shuangpin_code("a");
    assert_eq!(bad.initial, "");
    assert_eq!(bad.final_part, "");
    assert!(!bad.is_valid);
}

#[test]
fn table_insert_replaces_and_copies() {
    let mut t = CodeTable::new();
    assert!(!t.contains_key("ang"));
    t.insert("ang", "h");
    t.insert("ang", "x");
    assert_eq!(t.get("ang"), Some("x".to_string()));
    assert_eq!(t.get("an"), None);
    let c = t.copy();
    assert_eq!(c.get("ang"), Some("x".to_string()));
    assert!(c.contains_key("ang"));
}

#[test]
fn microsoft_tables_hold_their_entries() {
    let s = ShuangpinScheme::microsoft();
    assert_eq!(s.initials.get("sh"), Some("u".to_string()));
    assert_eq!(s.finals.get("iang"), Some("d".to_string()));
    assert_eq!(s.finals.get("zhang"), Some("vh".to_string()));
    assert_eq!(s.special_finals.get("si"), Some("si".to_string()));
    assert_eq!(s.initials.get("a"), None);
}
