use whisp_away::strutil::{str_eq, trim_str, u64_to_string};
use whisp_away::transcript::{extract_cli_transcript, join_segments};
use whisp_away::typing::{typing_plan, TypingPlan};

#[test]
fn cli_transcript_extraction() {
    let stdout = "[00:00:00.000 --> 00:00:02.000]   Hello world\n\
                  [00:00:02.000 --> 00:00:04.000]   (wind noise)\n\
                  some log line\n\
                  [00:00:04.000 --> 00:00:05.000]   again\n";
    assert_eq!(extract_cli_transcript(stdout), "Hello world again");
}

#[test]
fn cli_transcript_handles_carriage_returns() {
    let stdout = "[00:00:00.000 --> 00:00:01.000]  one\r\n[00:00:01.000 --> 00:00:02.000]  two\r\n";
    assert_eq!(extract_cli_transcript(stdout), "one two");
}

#[test]
fn cli_transcript_requires_timestamp_and_bracket() {
    assert_eq!(extract_cli_transcript("no timestamps here\njust text\n"), "");
    assert_eq!(extract_cli_transcript("[0 --> 1 without bracket close\n"), "");
    assert_eq!(extract_cli_transcript(""), "");
}

#[test]
fn cli_transcript_drops_blank_pieces() {
    let stdout = "[00:00:00.000 --> 00:00:01.000]     \n[00:00:01.000 --> 00:00:02.000]  kept\n";
    assert_eq!(extract_cli_transcript(stdout), "kept");
}

#[test]
fn segments_join_with_spaces_and_trim() {
    let segments = vec![" Hello".to_string(), "world".to_string()];
    assert_eq!(join_segments(&segments), "Hello world");
    let one = vec!["only".to_string()];
    assert_eq!(join_segments(&one), "only");
    let none: Vec<String> = Vec::new();
    assert_eq!(join_segments(&none), "");
}

#[test]
fn typing_skips_blank_text() {
    assert!(matches!(typing_plan("   "), TypingPlan::NoSpeech));
    assert!(matches!(typing_plan(""), TypingPlan::NoSpeech));
    assert!(matches!(typing_plan("\n\t"), TypingPlan::NoSpeech));
}

#[test]
fn typing_types_trimmed_text() {
    match typing_plan("  dictated words \n") {
        TypingPlan::Type(t) => assert_eq!(t, "dictated words"),
        TypingPlan::NoSpeech => panic!("should type"),
    }
}

#[test]
fn decimal_rendering() {
    assert_eq!(u64_to_string(0), "0");
    assert_eq!(u64_to_string(7), "7");
    assert_eq!(u64_to_string(12345), "12345");
    assert_eq!(u64_to_string(u64::MAX), "18446744073709551615");
}

#[test]
fn trimming() {
    assert_eq!(trim_str("  a b  "), "a b");
    assert_eq!(trim_str("\r\n x \t"), "x");
    assert_eq!(trim_str(""), "");
    assert_eq!(trim_str("   "), "");
}

#[test]
fn string_equality() {
    assert!(str_eq("abc", "abc"));
    assert!(!str_eq("abc", "abd"));
    assert!(!str_eq("abc", "ab"));
    assert!(!str_eq("ab", "abc"));
    assert!(str_eq("", ""));
}
