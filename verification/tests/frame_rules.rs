use state_relay::frame::ascii_fold;
use state_relay::frame::classify;
use state_relay::frame::eq_ignore_ascii_case;
use state_relay::frame::is_heartbeat;
use state_relay::frame::is_whitespace;
use state_relay::frame::trim_end;
use state_relay::frame::FrameAction;
use state_relay::frame::SENTINEL;

#[test]
fn whitespace_is_what_std_calls_whitespace() {
    let mut code: u32 = 0;
    while code <= 0x10FFFF {
        if let Some(c) = char::from_u32(code) {
            assert_eq!(is_whitespace(c), c.is_whitespace(), "code point {:#x}", code);
        }
        code += 1;
    }
}

#[test]
fn whitespace_names_the_usual_characters() {
    assert!(is_whitespace(' '));
    assert!(is_whitespace('\n'));
    assert!(is_whitespace('\r'));
    assert!(is_whitespace('\t'));
    assert!(is_whitespace('\u{0B}'));
    assert!(is_whitespace('\u{0C}'));
    assert!(is_whitespace('\u{85}'));
    assert!(is_whitespace('\u{A0}'));
    assert!(is_whitespace('\u{3000}'));
    assert!(!is_whitespace('a'));
    assert!(!is_whitespace('}'));
    assert!(!is_whitespace('\u{0}'));
    assert!(!is_whitespace('\u{200B}'));
}

#[test]
fn trim_end_cuts_the_newline() {
    assert_eq!(trim_end("foo\n"), "foo");
    assert_eq!(trim_end("foo\r\n"), "foo");
    assert_eq!(trim_end("foo"), "foo");
}

#[test]
fn trim_end_keeps_leading_and_inner_whitespace() {
    assert_eq!(trim_end("  a b \t c  \n"), "  a b \t c");
    assert_eq!(trim_end("line one\nline two\n"), "line one\nline two");
}

#[test]
fn trim_end_of_blank_text_is_empty() {
    assert_eq!(trim_end(""), "");
    assert_eq!(trim_end("\n"), "");
    assert_eq!(trim_end(" \t \r\n"), "");
    assert_eq!(trim_end("\u{A0}\u{2003}\u{3000}"), "");
}

#[test]
fn trim_end_counts_characters_not_bytes() {
    assert_eq!(trim_end("h\u{e9}llo w\u{f6}rld \u{1F600}\u{2028}\n"), "h\u{e9}llo w\u{f6}rld \u{1F600}");
    assert_eq!(trim_end("\u{65E5}\u{672C}\u{3000}"), "\u{65E5}\u{672C}");
}

#[test]
fn trim_end_agrees_with_std() {
    let samples = [
        "",
        " ",
        "x",
        " x",
        "x ",
        "{\"a\": 1}\n",
        "tab\t",
        "\u{1680}x\u{1680}",
        "nul\u{0}\n",
        "zero width\u{200B}\n",
        "\u{1F600} \u{1F600} ",
        "a\u{85}b\u{85}",
    ];
    for sample in samples {
        assert_eq!(trim_end(sample), sample.trim_end(), "sample {:?}", sample);
    }
}

#[test]
fn ascii_fold_maps_capitals_only() {
    assert_eq!(ascii_fold('A'), 'a' as u32);
    assert_eq!(ascii_fold('Z'), 'z' as u32);
    assert_eq!(ascii_fold('a'), 'a' as u32);
    assert_eq!(ascii_fold('@'), '@' as u32);
    assert_eq!(ascii_fold('['), '[' as u32);
    assert_eq!(ascii_fold('{'), '{' as u32);
    assert_eq!(ascii_fold('\u{C9}'), 0xC9);
    assert_eq!(ascii_fold('\u{212A}'), 0x212A);
}

#[test]
fn ascii_fold_agrees_with_std() {
    let mut code: u32 = 0;
    while code <= 0x10FFFF {
        if let Some(c) = char::from_u32(code) {
            assert_eq!(ascii_fold(c), c.to_ascii_lowercase() as u32);
        }
        code += 1;
    }
}

#[test]
fn eq_ignore_ascii_case_agrees_with_std() {
    let samples = [
        "",
        "a",
        "A",
        "ab",
        "aB",
        "abc",
        "\u{e9}",
        "\u{c9}",
        "k",
        "\u{212A}",
        "{\"type\":\"dummy\"}",
        "{\"TYPE\":\"DUMMY\"}",
        "{\"type\":\"dummy\"} ",
        "{\"type\":\"dummy\"",
    ];
    for a in samples {
        for b in samples {
            assert_eq!(eq_ignore_ascii_case(a, b), a.eq_ignore_ascii_case(b), "{:?} and {:?}", a, b);
        }
    }
}

#[test]
fn sentinel_is_the_heartbeat_payload() {
    assert_eq!(SENTINEL, "{\"type\":\"dummy\"}");
    assert_eq!(SENTINEL.chars().count(), 16);
}

#[test]
fn heartbeat_is_recognised_in_any_letter_case() {
    assert!(is_heartbeat("{\"type\":\"dummy\"}"));
    assert!(is_heartbeat("{\"TYPE\":\"DUMMY\"}"));
    assert!(is_heartbeat("{\"Type\":\"duMMy\"}"));
}

#[test]
fn heartbeat_is_nothing_but_the_payload() {
    assert!(!is_heartbeat(""));
    assert!(!is_heartbeat("{\"type\":\"dummy\"} "));
    assert!(!is_heartbeat(" {\"type\":\"dummy\"}"));
    assert!(!is_heartbeat("{\"type\": \"dummy\"}"));
    assert!(!is_heartbeat("{\"type\":\"dummy\"}x"));
    assert!(!is_heartbeat("{\"type\":\"dummy\""));
    assert!(!is_heartbeat("{\"type\":\"dumm\u{fd}\"}"));
    assert!(!is_heartbeat("{'type':'dummy'}"));
}

#[test]
fn classify_closes_on_a_blank_line() {
    assert_eq!(classify(""), FrameAction::Close);
    assert_eq!(classify("\n"), FrameAction::Close);
    assert_eq!(classify("\r\n"), FrameAction::Close);
    assert_eq!(classify("   \t\n"), FrameAction::Close);
}

#[test]
fn classify_discards_a_heartbeat() {
    assert_eq!(classify("{\"type\":\"dummy\"}\n"), FrameAction::Discard);
    assert_eq!(classify("{\"TYPE\":\"Dummy\"}\r\n"), FrameAction::Discard);
    assert_eq!(classify("{\"type\":\"dummy\"}"), FrameAction::Discard);
}

#[test]
fn classify_stores_the_trimmed_line() {
    assert_eq!(classify("foo\n"), FrameAction::Store("foo".to_string()));
    assert_eq!(classify("  foo bar  \n"), FrameAction::Store("  foo bar".to_string()));
    assert_eq!(
        classify("{\"type\":\"state\",\"n\":1}\n"),
        FrameAction::Store("{\"type\":\"state\",\"n\":1}".to_string())
    );
    assert_eq!(
        classify(" {\"type\":\"dummy\"}\n"),
        FrameAction::Store(" {\"type\":\"dummy\"}".to_string())
    );
}
