use theatremix_remote_display::config::{initial_host, stored_host};
use theatremix_remote_display::cue::CueInfo;
use theatremix_remote_display::text::{same_text, trim};

#[test]
fn same_text_compares_whole_strings() {
    assert!(same_text("", ""));
    assert!(same_text("/thump", "/thump"));
    assert!(!same_text("/thump", "/thumq"));
    assert!(!same_text("/thump", "/thum"));
    assert!(!same_text("/thum", "/thump"));
    assert!(!same_text("", " "));
    assert!(same_text("Grüße — 你好", "Grüße — 你好"));
    assert!(!same_text("Grüße", "Grüsse"));
}

#[test]
fn trim_removes_white_space_at_both_ends() {
    assert_eq!(trim(""), "");
    assert_eq!(trim("   "), "");
    assert_eq!(trim("a"), "a");
    assert_eq!(trim(" a"), "a");
    assert_eq!(trim("a "), "a");
    assert_eq!(trim("  a b  "), "a b");
    assert_eq!(trim("\t\r\n studio.local \r\n"), "studio.local");
    assert_eq!(trim("\u{a0}\u{2003}x\u{3000}\u{85}"), "x");
    assert_eq!(trim("\u{200b}x"), "\u{200b}x");
    assert_eq!(trim(" é "), "é");
    assert_eq!(trim("—"), "—");
}

#[test]
fn trim_agrees_with_std() {
    for s in ["", " ", "x", "  x y\t", "\n\n", "\u{2028}a\u{2029}", " \u{feff} ", "a\u{1680}"] {
        assert_eq!(trim(s), s.trim());
    }
}

#[test]
fn stored_host_is_the_trimmed_text() {
    assert_eq!(stored_host("studio.local\n"), Some("studio.local".to_string()));
    assert_eq!(stored_host("  10.0.0.7  "), Some("10.0.0.7".to_string()));
    assert_eq!(stored_host("a\nb\n"), Some("a\nb".to_string()));
    assert_eq!(stored_host(""), None);
    assert_eq!(stored_host(" \n\t"), None);
}

#[test]
fn initial_host_prefers_the_argument() {
    assert_eq!(initial_host(None, None), "127.0.0.1");
    assert_eq!(initial_host(None, Some("stored".to_string())), "stored");
    assert_eq!(initial_host(Some("arg".to_string()), None), "arg");
    assert_eq!(initial_host(Some("arg".to_string()), Some("stored".to_string())), "arg");
    assert_eq!(initial_host(Some(String::new()), Some("stored".to_string())), "");
}

#[test]
fn cue_block_labels() {
    let cue = CueInfo {
        number: "Q12".to_string(),
        text: "Enter Juliet".to_string(),
        color: Some("red".to_string()),
    };
    assert_eq!(cue.title(), "Cue Q12");
    assert_eq!(cue.caption(), "Enter Juliet");
    assert_eq!(cue.color_line(), "Color: red");
    let cue = CueInfo::default();
    assert_eq!(cue.title(), "Cue —");
    assert_eq!(cue.caption(), "—");
    assert_eq!(cue.color_line(), "Color: —");
    let cue = CueInfo { number: String::new(), text: " ".to_string(), color: Some(String::new()) };
    assert_eq!(cue.title(), "Cue —");
    assert_eq!(cue.caption(), " ");
    assert_eq!(cue.color_line(), "Color: ");
}

fn in_white_space(c: char) -> bool {
    matches!(
        c as u32,
        0x0009..=0x000D
            | 0x0020
            | 0x0085
            | 0x00A0
            | 0x1680
            | 0x2000..=0x200A
            | 0x2028..=0x2029
            | 0x202F
            | 0x205F
            | 0x3000
    )
}

#[test]
fn white_space_is_the_unicode_property() {
    let mut count = 0;
    for code in 0..=0x10FFFFu32 {
        if let Some(c) = char::from_u32(code) {
            let mut one = String::new();
            one.push(c);
            assert_eq!(trim(&one).is_empty(), in_white_space(c), "U+{code:04X}");
            assert_eq!(c.is_whitespace(), in_white_space(c), "U+{code:04X}");
            if in_white_space(c) {
                count += 1;
            }
        }
    }
    assert_eq!(count, 25);
}

#[test]
fn trim_keeps_white_space_inside() {
    assert_eq!(trim("\u{2009}a\u{2009}b\u{2009}"), "a\u{2009}b");
    assert_eq!(trim("\u{180e}a\u{180e}"), "\u{180e}a\u{180e}");
    assert_eq!(stored_host("\u{feff}host\n"), Some("\u{feff}host".to_string()));
}
