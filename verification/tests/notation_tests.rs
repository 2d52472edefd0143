use nac::tools::terminal::{modified_key_sequence, special_name_sequence};
use nac::terminal::screen::{row_text, screen_text, trimmed};
use nac::tools::terminal::{
    build_modified_char, build_modified_vt_sequence, parse_bracket_notation, strip_ansi_codes,
    try_parse_input,
};
use nac::tools::terminal_read::read_window;
use nac::tools::terminal_send::{build_csi_sequence, build_vt_sequence};

fn input(s: &str) -> Vec<u8> {
    match try_parse_input(s) {
        Some(Ok(bytes)) => bytes,
        Some(Err(e)) => panic!("refused {:?}: {}", s, e.content),
        None => panic!("no answer for {:?}", s),
    }
}

fn input_error(s: &str) -> String {
    match try_parse_input(s) {
        Some(Err(e)) => {
            assert!(e.is_error);
            e.content
        }
        other => panic!("unexpected {:?}", other.map(|r| r.is_ok())),
    }
}

fn notation(s: &str) -> String {
    parse_bracket_notation(s).unwrap_or_else(|e| panic!("refused {:?}: {}", s, e.content))
}

fn notation_error(s: &str) -> String {
    match parse_bracket_notation(s) {
        Err(e) => {
            assert!(e.is_error);
            e.content
        }
        Ok(v) => panic!("accepted {:?} as {:?}", s, v),
    }
}

#[test]
fn plain_text_is_sent_as_utf8() {
    assert_eq!(input("ls -la"), b"ls -la".to_vec());
    assert_eq!(input("héllo"), "héllo".as_bytes().to_vec());
    assert_eq!(input(""), Vec::<u8>::new());
}

#[test]
fn control_and_special_keys() {
    assert_eq!(input("<C-a>"), vec![0x01]);
    assert_eq!(input("<C-c>"), vec![0x03]);
    assert_eq!(input("<C-A>"), vec![0x01]);
    assert_eq!(input("<A-x>"), vec![0x1b, b'x']);
    assert_eq!(input("<C-A-a>"), vec![0x1b, 0x01]);
    assert_eq!(input("echo hi<RET>"), b"echo hi\r".to_vec());
    assert_eq!(input("<TAB><BSPC><DEL>"), b"\t\x7f\x1b[3~".to_vec());
    assert_eq!(input("<<text>>"), b"<text>".to_vec());
    assert_eq!(input("a<<b>c>>d"), b"a<b>c>d".to_vec());
}

#[test]
fn special_names_ignore_case() {
    assert_eq!(notation("ret"), "\r");
    assert_eq!(notation("Return"), "\r");
    assert_eq!(notation("esc"), "\x1b");
    assert_eq!(notation("space"), " ");
    assert_eq!(notation("pgdn"), "\x1b[6~");
    assert_eq!(notation("F1"), "\x1bOP");
    assert_eq!(notation("f12"), "\x1b[24~");
    assert_eq!(notation("UP"), "\x1b[A");
}

#[test]
fn modified_special_keys() {
    assert_eq!(notation("C-RET"), "\n");
    assert_eq!(notation("S-TAB"), "\x1b[Z");
    assert_eq!(notation("C-TAB"), "\t");
    assert_eq!(notation("S-DEL"), "\x1b[3;2~");
    assert_eq!(notation("A-del"), "\x1b[3;3~");
    assert_eq!(notation("C-INS"), "\x1b[2;5~");
    assert_eq!(notation("S-PGUP"), "\x1b[5;2~");
    assert_eq!(notation("C-S-BSPC"), "\x7f");
    assert_eq!(notation("C-UP"), "\x1b[1;5A");
    assert_eq!(notation("C-S-left"), "\x1b[1;6D");
    assert_eq!(notation("C-A-S-END"), "\x1b[1;8F");
}

#[test]
fn notation_errors() {
    assert_eq!(notation_error(""), "Error: Empty notation <>");
    assert_eq!(notation_error("foo"), "Error: Unknown notation '<foo>'");
    assert_eq!(notation_error("C-"), "Error: Missing key after modifiers in '<C->'");
    assert_eq!(notation_error("C-xyz"), "Error: Unknown key 'xyz' in notation '<C-xyz>'");
    assert_eq!(input_error("<abc"), "Error: Unclosed notation <...>");
    assert_eq!(input_error("<<abc>"), "Error: Unclosed escape sequence <<...>>");
    assert_eq!(input_error("x<>"), "Error: Empty notation <>");
}

#[test]
fn modified_characters() {
    assert_eq!(build_modified_char('a', true, false, false), "\x01");
    assert_eq!(build_modified_char('Z', true, false, false), "\x1a");
    assert_eq!(build_modified_char('[', true, false, false), "\x1b");
    assert_eq!(build_modified_char('?', true, false, false), "\x7f");
    assert_eq!(build_modified_char('1', true, false, false), "1");
    assert_eq!(build_modified_char('q', false, true, false), "\x1bq");
    assert_eq!(build_modified_char('q', false, false, true), "q");
    assert_eq!(build_modified_vt_sequence("A", false, false, false), "\x1b[A");
    assert_eq!(build_modified_vt_sequence("B", true, false, true), "\x1b[1;4B");
    assert_eq!(build_modified_vt_sequence("C", false, true, true), "\x1b[1;7C");
}

#[test]
fn csi_sequences() {
    assert_eq!(build_csi_sequence("A", false, false, false), "\x1b[A");
    assert_eq!(build_csi_sequence("A", true, false, false), "\x1b[1;5A");
    assert_eq!(build_csi_sequence("D", false, true, true), "\x1b[1;4D");
    assert_eq!(build_csi_sequence("5~", false, false, true), "\x1b[5;2~");
    assert_eq!(build_csi_sequence("6~", true, true, true), "\x1b[6;8~");
}

#[test]
fn vt_sequences_for_named_keys() {
    let none: Vec<String> = vec![];
    let ctrl = vec!["ctrl".to_string()];
    let shift = vec!["shift".to_string()];
    assert_eq!(build_vt_sequence("enter", &none).unwrap(), "\r");
    assert_eq!(build_vt_sequence("enter", &ctrl).unwrap(), "\n");
    assert_eq!(build_vt_sequence("tab", &shift).unwrap(), "\x1b[Z");
    assert_eq!(build_vt_sequence("up", &ctrl).unwrap(), "\x1b[1;5A");
    assert_eq!(build_vt_sequence("page_up", &none).unwrap(), "\x1b[5~");
    assert_eq!(build_vt_sequence("f5", &ctrl).unwrap(), "\x1b[15~");
    match build_vt_sequence("hyper", &none) {
        Err(e) => {
            assert!(e.is_error);
            assert_eq!(e.content, "Error: Unknown special key 'hyper'");
        }
        Ok(v) => panic!("accepted {:?}", v),
    }
}

#[test]
fn ansi_codes_are_stripped() {
    assert_eq!(strip_ansi_codes("\x1b[32mGREEN\x1b[0m"), "GREEN");
    assert_eq!(strip_ansi_codes("a\x1b[1;5Hb"), "ab");
    assert_eq!(strip_ansi_codes("x\x1by"), "xy");
    assert_eq!(strip_ansi_codes("cut\x1b[12"), "cut");
    assert_eq!(strip_ansi_codes("tilde\x1b[3~!"), "tilde!");
}

#[test]
fn read_window_takes_the_lines_above_the_offset() {
    let content = "l1\nl2\nl3\nl4\nl5";
    assert_eq!(read_window(content, 2, 0), "l4\nl5");
    assert_eq!(read_window(content, 2, 1), "l3\nl4");
    assert_eq!(read_window(content, 10, 0), "l1\nl2\nl3\nl4\nl5");
    assert_eq!(read_window(content, 3, 4), "l1");
    assert_eq!(read_window(content, 3, 5), "");
    assert_eq!(read_window("a\r\n\x1b[1mb\x1b[0m\n", 5, 0), "a\nb");
    assert_eq!(read_window("", 5, 0), "");
}

#[test]
fn screen_text_trims_rows_and_joins_them() {
    let row = |cells: &[&str]| Some(cells.iter().map(|c| c.chars().collect::<Vec<char>>()).collect::<Vec<_>>());
    let rows = vec![
        row(&["$", "", "l", "s", "", ""]),
        None,
        row(&["", "", ""]),
        row(&["a", "\u{3000}", "b", "\t", " "]),
    ];
    assert_eq!(screen_text(&rows, 6), "$ ls\n\n\na\u{3000}b");
    assert_eq!(row_text(&row(&["e\u{301}", "x"]), 2), "e\u{301}x");
    assert_eq!(row_text(&None, 80), "");
    assert_eq!(trimmed(&"ab \u{a0}\u{2028}".chars().collect()), "ab");
    assert_eq!(trimmed(&"  x".chars().collect()), "  x");
    assert_eq!(screen_text(&Vec::new(), 80), "");
}

#[test]
fn plain_text_and_escaped_literals() {
    use_parse("echo hello", b"echo hello");
    use_parse("<<div>>x", b"<div>x");
    use_parse("<<b>><RET>", b"<b>\r");
    let once = strip_ansi_codes("\x1b[1mbold\x1b[0m and \x1b plain");
    assert_eq!(once, "bold and  plain");
    assert_eq!(strip_ansi_codes(&once), once);
    assert_eq!(strip_ansi_codes("no escapes"), "no escapes");
}

fn use_parse(input: &str, expected: &[u8]) {
    match nac::tools::terminal::parse_input(input) {
        Ok(bytes) => assert_eq!(bytes, expected.to_vec()),
        Err(e) => panic!("{}", e.content),
    }
}

#[test]
fn key_lookups_and_notation_laws() {
    let up = |s: &str| s.chars().collect::<Vec<char>>();
    assert_eq!(special_name_sequence(&up("RET")), Some("\r".to_string()));
    assert_eq!(special_name_sequence(&up("NOPE")), None);
    assert_eq!(modified_key_sequence(&up("UP"), true, false, false), Some("\x1b[1;5A".to_string()));
    assert_eq!(modified_key_sequence(&up("RET"), true, false, false), Some("\n".to_string()));
    assert_eq!(modified_key_sequence(&up("NOPE"), true, false, false), None);
    // <c> expands as the notation c.
    assert_eq!(input("<C-a>"), parse_bracket_notation("C-a").unwrap().into_bytes());
    // A well-formed prefix expands independently of what follows.
    let mut joined = input("ls<RET>");
    joined.extend(input("<<x>>y"));
    assert_eq!(input("ls<RET><<x>>y"), joined);
    // Stripped text is a subsequence of the text, without escapes.
    let text = "a\x1b[31mb\x1bc";
    let stripped = strip_ansi_codes(text);
    assert_eq!(stripped, "abc");
    assert!(!stripped.contains('\x1b') && stripped.len() <= text.len());
}

#[test]
fn key_names_ignore_case() {
    assert_eq!(notation("ret"), "\r");
    assert_eq!(notation("Ret"), "\r");
    assert_eq!(notation("bSpC"), "\x7f");
    assert_eq!(notation("C-up"), notation("C-UP"));
    // The key after the modifiers is case-sensitive as a character.
    assert_eq!(notation("C-a"), "\x01");
}
