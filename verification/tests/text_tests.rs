use build_printers::gcode::{is_literal, none_uncommented, try_none_uncommented};
use build_printers::named_map::NamedMap;
use build_printers::text::{
    definition_key, generalized, join_with, output_file_name, replace_all, split_at_newlines,
    starts_with_char,
};
use build_printers::values::F32Bits;

#[test]
fn generalized_drops_separators_and_lowercases() {
    assert_eq!(generalized("Prusa i3 MK3S+"), "prusai3mk3splus");
    assert_eq!(generalized("Creality/Ender_3 (Pro)"), "crealityender3pro)");
    assert_eq!(generalized("Anycubic.Kobra"), "anycubickobra");
    assert_eq!(generalized(""), "");
}

#[test]
fn output_file_name_replaces_unsafe_characters() {
    assert_eq!(output_file_name("Creality Ender-3 (v2)"), "Creality_Ender-3__v2).json");
    assert_eq!(output_file_name("a/b+c"), "a_b_plusc.json");
}

#[test]
fn definition_key_strips_suffix() {
    assert_eq!(definition_key("creality_ender3.def.json"), "creality_ender3");
    assert_eq!(definition_key("plain"), "plain");
}

#[test]
fn replace_all_is_left_to_right_and_non_overlapping() {
    assert_eq!(replace_all("aaa", "aa", "b"), "ba");
    assert_eq!(replace_all("x{t}y{t}", "{t}", "T"), "xTyT");
    assert_eq!(replace_all("abc", "z", "q"), "abc");
    assert_eq!(replace_all("", "z", "q"), "");
}

#[test]
fn split_and_join_are_inverse() {
    let pieces = split_at_newlines("G28\nG1 X0\n");
    assert_eq!(pieces, vec!["G28".to_string(), "G1 X0".to_string(), "".to_string()]);
    assert_eq!(join_with(&pieces, "\n"), "G28\nG1 X0\n");
    assert_eq!(split_at_newlines(""), vec!["".to_string()]);
    assert_eq!(join_with(&vec![], "\n"), "");
    assert_eq!(join_with(&vec!["a".to_string()], ", "), "a");
}

#[test]
fn starts_with_char_checks_first_character() {
    assert!(starts_with_char("; comment", ';'));
    assert!(!starts_with_char(" ;", ';'));
    assert!(!starts_with_char("", ';'));
}

#[test]
fn named_map_reads_back_what_was_written() {
    let mut m: NamedMap<u32> = NamedMap::new();
    m.insert("a".to_string(), 1);
    m.insert("b".to_string(), 2);
    m.insert("a".to_string(), 3);
    assert_eq!(m.len(), 2);
    assert_eq!(m.get("a"), Some(&3));
    assert_eq!(m.get("b"), Some(&2));
    assert_eq!(m.get("c"), None);
    let (k, v) = m.entry(0);
    assert_eq!((k.as_str(), *v), ("a", 3));
    assert_eq!(m.remove("a"), Some(3));
    assert_eq!(m.remove("a"), None);
    assert_eq!(m.len(), 1);
    let entries = m.into_entries();
    assert_eq!(entries, vec![("b".to_string(), 2)]);
}

#[test]
fn thousandth_threshold_follows_float_magnitude() {
    let below = |x: f32| F32Bits { bits: x.to_bits() }.is_below_thousandth();
    assert!(below(0.0));
    assert!(below(-0.0));
    assert!(below(0.0005));
    assert!(below(-0.0009));
    assert!(!below(0.001));
    assert!(!below(-0.001));
    assert!(!below(0.4));
    assert!(!below(f32::NAN));
    assert!(!below(f32::INFINITY));
}

#[test]
fn replace_all_with_empty_pattern_surrounds_each_character() {
    assert_eq!(replace_all("abc", "", "x"), "xaxbxcx");
    assert_eq!(replace_all("", "", "x"), "x");
}

#[test]
fn generalized_lowercases_beyond_ascii() {
    assert_eq!(generalized("ÄRZ Drucker"), "ärzdrucker");
}

#[test]
fn literal_words_before_comments() {
    let lines = vec!["G1 X-1 ; M104 S".to_string(), "G28".to_string()];
    assert!(!none_uncommented(&lines, "X-1"));
    assert!(none_uncommented(&lines, "M104 S"));
    assert!(!none_uncommented(&lines, "G28"));
    assert!(!none_uncommented(&lines, ""));
    assert!(none_uncommented(&vec![], ""));
    assert!(none_uncommented(&vec!["; G90".to_string()], "G90"));
}

#[test]
fn generalized_key_of_joined_names() {
    let a = "Prusa i3";
    let b = " MK3S+";
    let joined = format!("{}{}", a, b);
    assert_eq!(generalized(&joined), format!("{}{}", generalized(a), generalized(b)));
}

#[test]
fn generalized_ignores_ascii_case() {
    let name = "Creality Ender_3 (Pro)";
    assert_eq!(generalized(&name.to_ascii_uppercase()), generalized(name));
    assert_eq!(generalized(&name.to_ascii_lowercase()), generalized(name));
    assert_eq!(generalized(&generalized(name)), generalized(name));
}

#[test]
fn literal_words_checked_before_matching() {
    let lines = vec!["G1 X-1 ; M104 S".to_string(), "G28".to_string()];
    assert!(is_literal("M104 S"));
    assert!(!is_literal("G2.8"));
    assert!(!is_literal("a*"));
    assert_eq!(try_none_uncommented(&lines, "G28"), Some(false));
    assert_eq!(try_none_uncommented(&lines, "M104"), Some(true));
    assert_eq!(try_none_uncommented(&lines, "G(28"), None);
    let long = "G".repeat(20000);
    assert_eq!(try_none_uncommented(&lines, &long), Some(true));
}
