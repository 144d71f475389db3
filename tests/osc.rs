use terminal_plugin::osc::{ClipboardData, ClipboardSelection, OscHandler, OscSequence};
use terminal_plugin::urldecode::urlencoding_decode;

#[test]
fn test_parse_osc7_working_directory() {
    let handler = OscHandler::new();
    let result = handler.parse("7;file://localhost/home/user/projects");
    assert_eq!(result, OscSequence::WorkingDirectory("/home/user/projects".to_string()));
}

#[test]
fn test_parse_osc7_empty_hostname() {
    let handler = OscHandler::new();
    let result = handler.parse("7;file:///home/user/projects");
    assert_eq!(result, OscSequence::WorkingDirectory("/home/user/projects".to_string()));
}

#[test]
fn test_parse_osc7_direct_path() {
    let handler = OscHandler::new();
    let result = handler.parse("7;/home/user/projects");
    assert_eq!(result, OscSequence::WorkingDirectory("/home/user/projects".to_string()));
}

#[test]
fn test_parse_osc7_url_encoded() {
    let handler = OscHandler::new();
    let result = handler.parse("7;file://localhost/home/user/my%20project");
    assert_eq!(result, OscSequence::WorkingDirectory("/home/user/my project".to_string()));
}

#[test]
fn test_parse_osc52_clipboard() {
    let handler = OscHandler::new();
    let result = handler.parse("52;c;SGVsbG8=");
    assert_eq!(
        result,
        OscSequence::Clipboard(ClipboardData {
            selection: ClipboardSelection::Clipboard,
            content: "Hello".to_string(),
        })
    );
}

#[test]
fn test_parse_osc52_primary() {
    let handler = OscHandler::new();
    let result = handler.parse("52;p;SGVsbG8=");
    assert_eq!(
        result,
        OscSequence::Clipboard(ClipboardData {
            selection: ClipboardSelection::Primary,
            content: "Hello".to_string(),
        })
    );
}

#[test]
fn test_parse_osc52_empty_content() {
    let handler = OscHandler::new();
    let result = handler.parse("52;c;");
    assert_eq!(
        result,
        OscSequence::Clipboard(ClipboardData {
            selection: ClipboardSelection::Clipboard,
            content: String::new(),
        })
    );
}

#[test]
fn test_parse_invalid_osc() {
    let handler = OscHandler::new();
    assert_eq!(handler.parse("invalid"), OscSequence::Unknown);
}

#[test]
fn test_parse_empty_data() {
    let handler = OscHandler::new();
    assert_eq!(handler.parse(""), OscSequence::Unknown);
}

#[test]
fn test_clipboard_size_limit() {
    let handler = OscHandler::new().with_max_clipboard_size(10);
    let large_data = "c;".to_string() + &"A".repeat(100);
    let result = handler.parse(&format!("52;{}", large_data));
    assert_eq!(result, OscSequence::Unknown);
}

#[test]
fn test_clipboard_invalid_base64() {
    let handler = OscHandler::new();
    assert_eq!(handler.parse("52;c;not-valid-base64!!!"), OscSequence::Unknown);
}

#[test]
fn test_url_decode() {
    assert_eq!(urlencoding_decode("/path/to/file"), "/path/to/file");
    assert_eq!(urlencoding_decode("/path%20with%20spaces"), "/path with spaces");
    assert_eq!(urlencoding_decode("/path%2Fwith%2Fslashes"), "/path/with/slashes");
    assert_eq!(urlencoding_decode("%"), "%");
    assert_eq!(urlencoding_decode("%2"), "%2");
    assert_eq!(urlencoding_decode("%ZZ"), "%ZZ");
}

#[test]
fn test_extract_sequences_single() {
    let handler = OscHandler::new();
    let data = "normal text\x1b]7;file://localhost/home/user\x07more text";
    let results = handler.extract_sequences(data);
    assert_eq!(results.len(), 1);
    assert_eq!(results[0].sequence, OscSequence::WorkingDirectory("/home/user".to_string()));
    assert_eq!(results[0].start, 11);
}

#[test]
fn test_extract_sequences_multiple() {
    let handler = OscHandler::new();
    let data = "\x1b]7;file://localhost/home\x07text\x1b]52;c;SGVsbG8=\x07end";
    let results = handler.extract_sequences(data);
    assert_eq!(results.len(), 2);
    assert_eq!(results[0].sequence, OscSequence::WorkingDirectory("/home".to_string()));
    assert_eq!(
        results[1].sequence,
        OscSequence::Clipboard(ClipboardData {
            selection: ClipboardSelection::Clipboard,
            content: "Hello".to_string(),
        })
    );
}

#[test]
fn test_extract_sequences_st_terminator() {
    let handler = OscHandler::new();
    let data = "text\x1b]7;file://localhost/home/user\x1b\\more";
    let results = handler.extract_sequences(data);
    assert_eq!(results.len(), 1);
    assert_eq!(results[0].sequence, OscSequence::WorkingDirectory("/home/user".to_string()));
}

#[test]
fn test_extract_sequences_no_terminator() {
    let handler = OscHandler::new();
    let data = "text\x1b]7;file://localhost/home/user";
    let results = handler.extract_sequences(data);
    assert_eq!(results.len(), 0);
}

#[test]
fn test_strip_sequences() {
    let handler = OscHandler::new();
    let data = "before\x1b]7;file://localhost/home\x07after";
    let (stripped, sequences) = handler.strip_sequences(data);
    assert_eq!(stripped, "beforeafter");
    assert_eq!(sequences.len(), 1);
    assert_eq!(sequences[0], OscSequence::WorkingDirectory("/home".to_string()));
}

#[test]
fn test_strip_sequences_no_osc() {
    let handler = OscHandler::new();
    let data = "normal text without OSC";
    let (stripped, sequences) = handler.strip_sequences(data);
    assert_eq!(stripped, data);
    assert!(sequences.is_empty());
}

#[test]
fn test_clipboard_selection_types() {
    assert_eq!(ClipboardSelection::from_char('c'), Some(ClipboardSelection::Clipboard));
    assert_eq!(ClipboardSelection::from_char('p'), Some(ClipboardSelection::Primary));
    assert_eq!(ClipboardSelection::from_char('q'), Some(ClipboardSelection::Secondary));
    assert_eq!(ClipboardSelection::from_char('s'), Some(ClipboardSelection::Select));
    assert_eq!(ClipboardSelection::from_char('0'), Some(ClipboardSelection::CutBuffer(0)));
    assert_eq!(ClipboardSelection::from_char('7'), Some(ClipboardSelection::CutBuffer(7)));
    assert_eq!(ClipboardSelection::from_char('x'), None);
}

#[test]
fn osc7_extraction_scenario() {
    let handler = OscHandler::new();
    let (stripped, events) =
        handler.strip_sequences("before\x1b]7;file://localhost/home/user\x07after");
    assert_eq!(stripped, "beforeafter");
    assert_eq!(events, vec![OscSequence::WorkingDirectory("/home/user".to_string())]);
}

#[test]
fn osc52_decode_scenario() {
    let handler = OscHandler::new();
    let (stripped, events) = handler.strip_sequences("text\x1b]52;c;SGVsbG8=\x07");
    assert_eq!(stripped, "text");
    assert_eq!(
        events,
        vec![OscSequence::Clipboard(ClipboardData {
            selection: ClipboardSelection::Clipboard,
            content: "Hello".to_string(),
        })]
    );
}

#[test]
fn osc_size_cap_scenario() {
    let handler = OscHandler::new().with_max_clipboard_size(10);
    let payload = "52;c;".to_string() + &"A".repeat(100);
    assert_eq!(handler.parse(&payload), OscSequence::Unknown);
    assert_eq!(handler.max_clipboard_size(), 10);
}

#[test]
fn clipboard_at_cap_is_accepted() {
    let handler = OscHandler::new().with_max_clipboard_size(8);
    assert_eq!(
        handler.parse("52;s;SGVsbG8="),
        OscSequence::Clipboard(ClipboardData {
            selection: ClipboardSelection::Select,
            content: "Hello".to_string(),
        })
    );
    let smaller = OscHandler::new().with_max_clipboard_size(7);
    assert_eq!(smaller.parse("52;s;SGVsbG8="), OscSequence::Unknown);
}

#[test]
fn clipboard_cut_buffer_and_default_selection() {
    let handler = OscHandler::new();
    assert_eq!(
        handler.parse("52;3;SGk="),
        OscSequence::Clipboard(ClipboardData {
            selection: ClipboardSelection::CutBuffer(3),
            content: "Hi".to_string(),
        })
    );
    assert_eq!(
        handler.parse("52;z;SGk="),
        OscSequence::Clipboard(ClipboardData {
            selection: ClipboardSelection::Clipboard,
            content: "Hi".to_string(),
        })
    );
    assert_eq!(
        handler.parse("52;;SGk="),
        OscSequence::Clipboard(ClipboardData {
            selection: ClipboardSelection::Clipboard,
            content: "Hi".to_string(),
        })
    );
}

#[test]
fn clipboard_bytes_not_utf8_are_dropped() {
    // "/w==" decodes to the single byte 0xFF
    let handler = OscHandler::new();
    assert_eq!(handler.parse("52;c;/w=="), OscSequence::Unknown);
}

#[test]
fn clipboard_without_selector_separator_is_unknown() {
    let handler = OscHandler::new();
    assert_eq!(handler.parse("52;SGVsbG8="), OscSequence::Unknown);
}

#[test]
fn default_handler_limit_is_one_mebibyte() {
    assert_eq!(OscHandler::new().max_clipboard_size(), 1048576);
    assert_eq!(OscHandler::default().max_clipboard_size(), 1048576);
}

#[test]
fn file_url_without_path_is_unknown() {
    let handler = OscHandler::new();
    assert_eq!(handler.parse("7;file://hostonly"), OscSequence::Unknown);
    assert_eq!(handler.parse("7;relative/dir"), OscSequence::Unknown);
}

#[test]
fn url_decoding_scenario() {
    assert_eq!(urlencoding_decode("/path%20with%20spaces"), "/path with spaces");
    assert_eq!(urlencoding_decode("%2"), "%2");
    assert_eq!(urlencoding_decode("%41%62"), "Ab");
    assert_eq!(urlencoding_decode("a%zz%41"), "a%zzA");
}

#[test]
fn url_decode_recovers_encoded_ascii_path() {
    let path = "/tmp/a b#c%d";
    let encoded: String = path
        .chars()
        .map(|c| {
            if c.is_ascii_alphanumeric() || c == '/' || c == '-' || c == '_' || c == '.' {
                c.to_string()
            } else {
                format!("%{:02X}", c as u8)
            }
        })
        .collect();
    assert_eq!(encoded, "/tmp/a%20b%23c%25d");
    assert_eq!(urlencoding_decode(&encoded), path);
}

#[test]
fn stripping_never_lengthens() {
    let handler = OscHandler::new();
    let inputs = [
        "",
        "\x1b]",
        "\x1b]\x07",
        "a\x1b]7;/x\x1b\\b\x1b]52;c;\x07c",
        "\x1b]\x1b]7;/x\x07",
        "plain",
        "\x1b]7;/unterminated",
    ];
    for s in inputs {
        let (stripped, _) = handler.strip_sequences(s);
        assert!(stripped.chars().count() <= s.chars().count());
    }
}

#[test]
fn unterminated_sequence_stays_in_text() {
    let handler = OscHandler::new();
    let data = "a\x1b]7;/x\x07b\x1b]7;/y";
    let (stripped, events) = handler.strip_sequences(data);
    assert_eq!(stripped, "ab\x1b]7;/y");
    assert_eq!(events, vec![OscSequence::WorkingDirectory("/x".to_string())]);
}

#[test]
fn unknown_sequences_are_stripped() {
    let handler = OscHandler::new();
    let (stripped, events) = handler.strip_sequences("x\x1b]0;title\x07y");
    assert_eq!(stripped, "xy");
    assert_eq!(events, vec![OscSequence::Unknown]);
    let results = handler.extract_sequences("x\x1b]0;title\x07y");
    assert_eq!(results[0].start, 1);
    assert_eq!(results[0].end, 11);
}

#[test]
fn lone_percent_is_kept_and_decoding_goes_on() {
    assert_eq!(urlencoding_decode("%G%41"), "%GA");
    assert_eq!(urlencoding_decode("%+1"), "%+1");
    assert_eq!(urlencoding_decode("%%41"), "%A");
    assert_eq!(urlencoding_decode("50%"), "50%");
}

#[test]
fn url_decode_recovers_partly_encoded_path_in_either_case() {
    // '%' encoded, 'b' encoded lower-case, space encoded upper-case, the rest kept
    assert_eq!(urlencoding_decode("/a%62%20c%25d%2f"), "/ab c%d/");
    assert_eq!(urlencoding_decode("%2fx%2Fy"), "/x/y");
}

#[test]
fn stripping_keeps_length_only_without_complete_sequences() {
    let handler = OscHandler::new();
    let (same, _) = handler.strip_sequences("é\x1b]7;/unterminated");
    assert_eq!(same, "é\x1b]7;/unterminated");
    let (shorter, _) = handler.strip_sequences("é\x1b]7;/d\x07ü");
    assert_eq!(shorter, "éü");
    assert!(shorter.len() < "é\x1b]7;/d\x07ü".len());
}
