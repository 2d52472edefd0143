//! The unified terminal tool: the `<...>` input notation that `send` accepts.
//!
//! Normal text is sent as it stands. `<C-a>` is Ctrl+A, `<A-a>` is Alt+A,
//! `<C-A-a>` is Ctrl+Alt+A, `<RET>`, `<TAB>`, `<BSPC>`, `<DEL>` and the other key
//! names are the keys they name, and `<<text>>` is the literal text `<text>`.
use vstd::prelude::*;

use vstd::utf8::encode_utf8;

use crate::text::{
    ascii_upper, chars_of, equals, is_ascii_char, is_ascii_text, push_char, string_of_range, to_uppercase, upper_case,
};
use crate::tools::{tool_error, ToolResult};

verus! {

/// The view of a tool outcome that holds a string on success.
pub open spec fn string_outcome(r: Result<String, ToolResult>) -> Result<Seq<char>, Seq<char>> {
    match r {
        Ok(s) => Ok(s@),
        Err(t) => Err(t.content@),
    }
}

/// An error outcome is always marked as an error.
pub open spec fn errors_flagged<T>(r: Result<T, ToolResult>) -> bool {
    r matches Err(t) ==> t.is_error
}

/// The sequence of a key name given without modifiers (compared in uppercase).
pub open spec fn special_name(u: Seq<char>) -> Option<Seq<char>> {
    if u == "RET"@ || u == "RETURN"@ || u == "CR"@ {
        Some("\r"@)
    } else if u == "TAB"@ {
        Some("\t"@)
    } else if u == "BSPC"@ || u == "BACKSPACE"@ || u == "BS"@ {
        Some("\x7f"@)
    } else if u == "DEL"@ || u == "DELETE"@ {
        Some("\x1b[3~"@)
    } else if u == "ESC"@ || u == "ESCAPE"@ {
        Some("\x1b"@)
    } else if u == "SPACE"@ {
        Some(" "@)
    } else if u == "UP"@ {
        Some("\x1b[A"@)
    } else if u == "DOWN"@ {
        Some("\x1b[B"@)
    } else if u == "RIGHT"@ {
        Some("\x1b[C"@)
    } else if u == "LEFT"@ {
        Some("\x1b[D"@)
    } else if u == "HOME"@ {
        Some("\x1b[H"@)
    } else if u == "END"@ {
        Some("\x1b[F"@)
    } else if u == "PGUP"@ || u == "PAGEUP"@ || u == "PAGE_UP"@ {
        Some("\x1b[5~"@)
    } else if u == "PGDN"@ || u == "PAGEDOWN"@ || u == "PAGE_DOWN"@ {
        Some("\x1b[6~"@)
    } else if u == "INS"@ || u == "INSERT"@ {
        Some("\x1b[2~"@)
    } else if u == "F1"@ {
        Some("\x1bOP"@)
    } else if u == "F2"@ {
        Some("\x1bOQ"@)
    } else if u == "F3"@ {
        Some("\x1bOR"@)
    } else if u == "F4"@ {
        Some("\x1bOS"@)
    } else if u == "F5"@ {
        Some("\x1b[15~"@)
    } else if u == "F6"@ {
        Some("\x1b[17~"@)
    } else if u == "F7"@ {
        Some("\x1b[18~"@)
    } else if u == "F8"@ {
        Some("\x1b[19~"@)
    } else if u == "F9"@ {
        Some("\x1b[20~"@)
    } else if u == "F10"@ {
        Some("\x1b[21~"@)
    } else if u == "F11"@ {
        Some("\x1b[23~"@)
    } else if u == "F12"@ {
        Some("\x1b[24~"@)
    } else {
        None
    }
}

/// The xterm modifier parameter for arrow-like keys.
pub open spec fn vt_modifier(shift: bool, ctrl: bool, alt: bool) -> Seq<char> {
    if shift && !ctrl && !alt {
        ";2"@
    } else if !shift && ctrl && !alt {
        ";5"@
    } else if !shift && !ctrl && alt {
        ";3"@
    } else if shift && ctrl && !alt {
        ";6"@
    } else if shift && !ctrl && alt {
        ";4"@
    } else if !shift && ctrl && alt {
        ";7"@
    } else if shift && ctrl && alt {
        ";8"@
    } else {
        Seq::empty()
    }
}

/// The sequence of an arrow-like key with final byte `base`: `ESC [ base`
/// without modifiers, `ESC [ 1 ; m base` with them (Ctrl+Up is `ESC [ 1 ; 5 A`).
pub open spec fn modified_vt_sequence(base: Seq<char>, shift: bool, ctrl: bool, alt: bool) -> Seq<char> {
    if !shift && !ctrl && !alt {
        "\x1b["@ + base
    } else {
        "\x1b[1"@ + vt_modifier(shift, ctrl, alt) + base
    }
}

/// The sequence of a key named after modifiers (compared in uppercase).
pub open spec fn modified_key(u: Seq<char>, ctrl: bool, alt: bool, shift: bool) -> Option<Seq<char>> {
    if u == "RET"@ || u == "RETURN"@ {
        Some(if ctrl { "\n"@ } else { "\r"@ })
    } else if u == "TAB"@ {
        Some(if shift { "\x1b[Z"@ } else { "\t"@ })
    } else if u == "BSPC"@ || u == "BACKSPACE"@ || u == "BS"@ {
        Some("\x7f"@)
    } else if u == "DEL"@ || u == "DELETE"@ {
        Some(
            if shift {
                "\x1b[3;2~"@
            } else if ctrl {
                "\x1b[3;5~"@
            } else if alt {
                "\x1b[3;3~"@
            } else {
                "\x1b[3~"@
            },
        )
    } else if u == "UP"@ {
        Some(modified_vt_sequence("A"@, shift, ctrl, alt))
    } else if u == "DOWN"@ {
        Some(modified_vt_sequence("B"@, shift, ctrl, alt))
    } else if u == "RIGHT"@ {
        Some(modified_vt_sequence("C"@, shift, ctrl, alt))
    } else if u == "LEFT"@ {
        Some(modified_vt_sequence("D"@, shift, ctrl, alt))
    } else if u == "HOME"@ {
        Some(modified_vt_sequence("H"@, shift, ctrl, alt))
    } else if u == "END"@ {
        Some(modified_vt_sequence("F"@, shift, ctrl, alt))
    } else if u == "INS"@ || u == "INSERT"@ {
        Some(
            if shift {
                "\x1b[2;2~"@
            } else if ctrl {
                "\x1b[2;5~"@
            } else if alt {
                "\x1b[2;3~"@
            } else {
                "\x1b[2~"@
            },
        )
    } else if u == "PGUP"@ || u == "PAGEUP"@ {
        Some(
            if shift {
                "\x1b[5;2~"@
            } else if ctrl {
                "\x1b[5;5~"@
            } else if alt {
                "\x1b[5;3~"@
            } else {
                "\x1b[5~"@
            },
        )
    } else if u == "PGDN"@ || u == "PAGEDOWN"@ {
        Some(
            if shift {
                "\x1b[6;2~"@
            } else if ctrl {
                "\x1b[6;5~"@
            } else if alt {
                "\x1b[6;3~"@
            } else {
                "\x1b[6~"@
            },
        )
    } else {
        None
    }
}

/// ASCII lowercase of one character; other characters are unchanged.
pub open spec fn ascii_lower(c: char) -> char {
    if 'A' <= c && c <= 'Z' {
        ((c as u32) + 32) as char
    } else {
        c
    }
}

/// The control character that Ctrl plus `c` types.
pub open spec fn control_char(c: char) -> char {
    let l = ascii_lower(c);
    if 'a' <= l && l <= 'z' {
        ((l as u32) - 96) as char
    } else if l == '[' {
        '\x1b'
    } else if l == '\\' {
        '\x1c'
    } else if l == ']' {
        '\x1d'
    } else if l == '^' {
        '\x1e'
    } else if l == '_' {
        '\x1f'
    } else if l == '?' {
        '\x7f'
    } else {
        l
    }
}

/// The text that one character key gives with Ctrl and Alt held: Alt prefixes
/// ESC, Ctrl turns the key into its control character.
pub open spec fn modified_char(ch: char, ctrl: bool, alt: bool) -> Seq<char> {
    (if alt { seq!['\x1b'] } else { Seq::empty() }) + seq![if ctrl { control_char(ch) } else { ch }]
}

/// Strips `C-`, `A-` and `S-` prefixes: the rest of the text, the modifiers seen,
/// and whether the scan gets stuck on a lone non-ASCII character (which the
/// byte-length test of the scan admits but whose second character is missing).
pub open spec fn scan_modifiers(rem: Seq<char>, ctrl: bool, alt: bool, shift: bool) -> (Seq<char>, bool, bool, bool, bool)
    decreases rem.len(),
{
    if rem.len() >= 2 {
        if rem[1] == '-' && rem[0] == 'C' {
            scan_modifiers(rem.skip(2), true, alt, shift)
        } else if rem[1] == '-' && rem[0] == 'A' {
            scan_modifiers(rem.skip(2), ctrl, true, shift)
        } else if rem[1] == '-' && rem[0] == 'S' {
            scan_modifiers(rem.skip(2), ctrl, alt, true)
        } else {
            (rem, ctrl, alt, shift, false)
        }
    } else if rem.len() == 1 && !is_ascii_char(rem[0]) {
        (rem, ctrl, alt, shift, true)
    } else {
        (rem, ctrl, alt, shift, false)
    }
}

/// Whether a single character of text is also a single byte of UTF-8.
pub open spec fn single_byte(s: Seq<char>) -> bool {
    s.len() == 1 && is_ascii_char(s[0])
}

pub open spec fn unknown_notation_message(content: Seq<char>) -> Seq<char> {
    "Error: Unknown notation \'<"@ + content + ">\'"@
}

pub open spec fn missing_key_message(content: Seq<char>) -> Seq<char> {
    "Error: Missing key after modifiers in \'<"@ + content + ">\'"@
}

pub open spec fn unknown_key_message(key: Seq<char>, content: Seq<char>) -> Seq<char> {
    "Error: Unknown key \'"@ + key + "' in notation \'<"@ + content + ">\'"@
}

/// Whether parsing the notation `content` gets stuck in the modifier scan.
pub open spec fn notation_aborts(content: Seq<char>) -> bool {
    &&& content.len() > 0
    &&& special_name(upper_case(content)) is None
    &&& scan_modifiers(content, false, false, false).4
}

/// What the notation inside `<...>` stands for, or the error message.
pub open spec fn notation(content: Seq<char>) -> Result<Seq<char>, Seq<char>> {
    if content.len() == 0 {
        Err("Error: Empty notation <>"@)
    } else if special_name(upper_case(content)) is Some {
        Ok(special_name(upper_case(content))->0)
    } else {
        let (rest, ctrl, alt, shift, _stuck) = scan_modifiers(content, false, false, false);
        if !ctrl && !alt && !shift {
            if single_byte(content) {
                Ok(modified_char(content[0], false, false))
            } else {
                Err(unknown_notation_message(content))
            }
        } else if rest.len() == 0 {
            Err(missing_key_message(content))
        } else if modified_key(upper_case(rest), ctrl, alt, shift) is Some {
            Ok(modified_key(upper_case(rest), ctrl, alt, shift)->0)
        } else if single_byte(rest) {
            Ok(modified_char(rest[0], ctrl, alt))
        } else {
            Err(unknown_key_message(rest, content))
        }
    }
}

pub open spec fn string_opt(o: Option<String>) -> Option<Seq<char>> {
    match o {
        Some(s) => Some(s@),
        None => None,
    }
}

/// The sequence of a key name given without modifiers, looked up in the
/// uppercased name `u` (see `special_name`); `None` for an unknown name.
pub fn special_name_sequence(u: &Vec<char>) -> (r: Option<String>)
    ensures
        string_opt(r) == special_name(u@),
{
    if equals(u, "RET") || equals(u, "RETURN") || equals(u, "CR") {
        Some(String::from_str("\r"))
    } else if equals(u, "TAB") {
        Some(String::from_str("\t"))
    } else if equals(u, "BSPC") || equals(u, "BACKSPACE") || equals(u, "BS") {
        Some(String::from_str("\x7f"))
    } else if equals(u, "DEL") || equals(u, "DELETE") {
        Some(String::from_str("\x1b[3~"))
    } else if equals(u, "ESC") || equals(u, "ESCAPE") {
        Some(String::from_str("\x1b"))
    } else if equals(u, "SPACE") {
        Some(String::from_str(" "))
    } else if equals(u, "UP") {
        Some(String::from_str("\x1b[A"))
    } else if equals(u, "DOWN") {
        Some(String::from_str("\x1b[B"))
    } else if equals(u, "RIGHT") {
        Some(String::from_str("\x1b[C"))
    } else if equals(u, "LEFT") {
        Some(String::from_str("\x1b[D"))
    } else if equals(u, "HOME") {
        Some(String::from_str("\x1b[H"))
    } else if equals(u, "END") {
        Some(String::from_str("\x1b[F"))
    } else if equals(u, "PGUP") || equals(u, "PAGEUP") || equals(u, "PAGE_UP") {
        Some(String::from_str("\x1b[5~"))
    } else if equals(u, "PGDN") || equals(u, "PAGEDOWN") || equals(u, "PAGE_DOWN") {
        Some(String::from_str("\x1b[6~"))
    } else if equals(u, "INS") || equals(u, "INSERT") {
        Some(String::from_str("\x1b[2~"))
    } else if equals(u, "F1") {
        Some(String::from_str("\x1bOP"))
    } else if equals(u, "F2") {
        Some(String::from_str("\x1bOQ"))
    } else if equals(u, "F3") {
        Some(String::from_str("\x1bOR"))
    } else if equals(u, "F4") {
        Some(String::from_str("\x1bOS"))
    } else if equals(u, "F5") {
        Some(String::from_str("\x1b[15~"))
    } else if equals(u, "F6") {
        Some(String::from_str("\x1b[17~"))
    } else if equals(u, "F7") {
        Some(String::from_str("\x1b[18~"))
    } else if equals(u, "F8") {
        Some(String::from_str("\x1b[19~"))
    } else if equals(u, "F9") {
        Some(String::from_str("\x1b[20~"))
    } else if equals(u, "F10") {
        Some(String::from_str("\x1b[21~"))
    } else if equals(u, "F11") {
        Some(String::from_str("\x1b[23~"))
    } else if equals(u, "F12") {
        Some(String::from_str("\x1b[24~"))
    } else {
        None
    }
}

/// Picks one of four sequences by which modifier is held, Shift first, then Ctrl, then Alt.
fn by_modifier(shift: bool, ctrl: bool, alt: bool, s: &str, c: &str, a: &str, none: &str) -> (r: String)
    ensures
        r@ == (if shift {
            s@
        } else if ctrl {
            c@
        } else if alt {
            a@
        } else {
            none@
        }),
{
    if shift {
        String::from_str(s)
    } else if ctrl {
        String::from_str(c)
    } else if alt {
        String::from_str(a)
    } else {
        String::from_str(none)
    }
}

/// The sequence of a key named after modifiers, looked up in the uppercased
/// name `u` with the modifiers held (see `modified_key`); `None` for an
/// unknown name.
pub fn modified_key_sequence(u: &Vec<char>, ctrl: bool, alt: bool, shift: bool) -> (r: Option<String>)
    ensures
        string_opt(r) == modified_key(u@, ctrl, alt, shift),
{
    if equals(u, "RET") || equals(u, "RETURN") {
        Some(if ctrl { String::from_str("\n") } else { String::from_str("\r") })
    } else if equals(u, "TAB") {
        Some(if shift { String::from_str("\x1b[Z") } else { String::from_str("\t") })
    } else if equals(u, "BSPC") || equals(u, "BACKSPACE") || equals(u, "BS") {
        Some(String::from_str("\x7f"))
    } else if equals(u, "DEL") || equals(u, "DELETE") {
        Some(by_modifier(shift, ctrl, alt, "\x1b[3;2~", "\x1b[3;5~", "\x1b[3;3~", "\x1b[3~"))
    } else if equals(u, "UP") {
        Some(build_modified_vt_sequence("A", shift, ctrl, alt))
    } else if equals(u, "DOWN") {
        Some(build_modified_vt_sequence("B", shift, ctrl, alt))
    } else if equals(u, "RIGHT") {
        Some(build_modified_vt_sequence("C", shift, ctrl, alt))
    } else if equals(u, "LEFT") {
        Some(build_modified_vt_sequence("D", shift, ctrl, alt))
    } else if equals(u, "HOME") {
        Some(build_modified_vt_sequence("H", shift, ctrl, alt))
    } else if equals(u, "END") {
        Some(build_modified_vt_sequence("F", shift, ctrl, alt))
    } else if equals(u, "INS") || equals(u, "INSERT") {
        Some(by_modifier(shift, ctrl, alt, "\x1b[2;2~", "\x1b[2;5~", "\x1b[2;3~", "\x1b[2~"))
    } else if equals(u, "PGUP") || equals(u, "PAGEUP") {
        Some(by_modifier(shift, ctrl, alt, "\x1b[5;2~", "\x1b[5;5~", "\x1b[5;3~", "\x1b[5~"))
    } else if equals(u, "PGDN") || equals(u, "PAGEDOWN") {
        Some(by_modifier(shift, ctrl, alt, "\x1b[6;2~", "\x1b[6;5~", "\x1b[6;3~", "\x1b[6~"))
    } else {
        None
    }
}

/// Builds the text of a character key with modifiers: ESC first when Alt is held,
/// then the control character when Ctrl is held, else the character itself.
/// Shift adds nothing: an uppercase letter already carries it.
pub fn build_modified_char(ch: char, has_ctrl: bool, has_alt: bool, has_shift: bool) -> (r: String)
    ensures
        r@ == modified_char(ch, has_ctrl, has_alt),
{
    let mut result = String::new();
    if has_alt {
        push_char(&mut result, '\x1b');
    }
    if has_ctrl {
        let lower = if 'A' <= ch && ch <= 'Z' {
            ((ch as u8) + 32) as char
        } else {
            ch
        };
        let ctrl_char = if 'a' <= lower && lower <= 'z' {
            ((lower as u8) - 96) as char
        } else if lower == '[' {
            '\x1b'
        } else if lower == '\\' {
            '\x1c'
        } else if lower == ']' {
            '\x1d'
        } else if lower == '^' {
            '\x1e'
        } else if lower == '_' {
            '\x1f'
        } else if lower == '?' {
            '\x7f'
        } else {
            lower
        };
        push_char(&mut result, ctrl_char);
    } else {
        push_char(&mut result, ch);
    }
    assert(result@ =~= modified_char(ch, has_ctrl, has_alt));
    result
}

/// Builds the sequence of an arrow-like key: `ESC [ base` without modifiers,
/// `ESC [ 1 ; m base` with the xterm modifier parameter `m`.
pub fn build_modified_vt_sequence(base: &str, has_shift: bool, has_ctrl: bool, has_alt: bool) -> (r: String)
    ensures
        r@ == modified_vt_sequence(base@, has_shift, has_ctrl, has_alt),
{
    let modifier = if has_shift && !has_ctrl && !has_alt {
        ";2"
    } else if !has_shift && has_ctrl && !has_alt {
        ";5"
    } else if !has_shift && !has_ctrl && has_alt {
        ";3"
    } else if has_shift && has_ctrl && !has_alt {
        ";6"
    } else if has_shift && !has_ctrl && has_alt {
        ";4"
    } else if !has_shift && has_ctrl && has_alt {
        ";7"
    } else if has_shift && has_ctrl && has_alt {
        ";8"
    } else {
        ""
    };
    if !has_shift && !has_ctrl && !has_alt {
        let mut r = String::from_str("\x1b[");
        r.append(base);
        r
    } else {
        let mut r = String::from_str("\x1b[1");
        r.append(modifier);
        r.append(base);
        r
    }
}

/// Strips the `C-`, `A-` and `S-` prefixes of `cs`: the index where the rest
/// starts and the modifiers seen.
fn scan_modifier_prefixes(cs: &Vec<char>) -> (r: (usize, bool, bool, bool))
    ensures
        r.0 <= cs@.len(),
        scan_modifiers(cs@, false, false, false) == (
            cs@.skip(r.0 as int),
            r.1,
            r.2,
            r.3,
            r.0 + 1 == cs@.len() && !is_ascii_char(cs@[r.0 as int]),
        ),
{
    let mut has_ctrl = false;
    let mut has_alt = false;
    let mut has_shift = false;
    let mut i: usize = 0;
    assert(cs@.skip(0) =~= cs@);
    while cs.len() - i >= 2
        invariant
            i <= cs@.len(),
            scan_modifiers(cs@, false, false, false) == scan_modifiers(
                cs@.skip(i as int),
                has_ctrl,
                has_alt,
                has_shift,
            ),
        decreases cs.len() - i,
    {
        let ghost rest = cs@.skip(i as int);
        assert(rest[0] == cs@[i as int] && rest[1] == cs@[i + 1]);
        assert(rest.skip(2) =~= cs@.skip(i + 2));
        let prefix = cs[i];
        if cs[i + 1] != '-' || (prefix != 'C' && prefix != 'A' && prefix != 'S') {
            return (i, has_ctrl, has_alt, has_shift);
        }
        if prefix == 'C' {
            has_ctrl = true;
        } else if prefix == 'A' {
            has_alt = true;
        } else {
            has_shift = true;
        }
        i = i + 2;
    }
    proof {
        if i < cs@.len() {
            assert(cs@.skip(i as int)[0] == cs@[i as int]);
        }
    }
    (i, has_ctrl, has_alt, has_shift)
}

/// Parses the notation inside `<...>`, or gives `None` where the modifier scan gets stuck.
pub fn try_parse_bracket_notation(content: &str) -> (r: Option<Result<String, ToolResult>>)
    ensures
        r is None <==> notation_aborts(content@),
        r matches Some(x) ==> string_outcome(x) == notation(content@) && errors_flagged(x),
{
    let cs = chars_of(content);
    if cs.len() == 0 {
        return Some(Err(tool_error(String::from_str("Error: Empty notation <>"))));
    }
    let upper = to_uppercase(content);
    let upper_chars = chars_of(upper.as_str());
    if let Some(seq) = special_name_sequence(&upper_chars) {
        return Some(Ok(seq));
    }
    let (i, has_ctrl, has_alt, has_shift) = scan_modifier_prefixes(&cs);
    // A lone character of two or more bytes is left: the scan finds no second character.
    if cs.len() - i == 1 && (cs[i] as u32) >= 128 {
        return None;
    }
    if !has_ctrl && !has_alt && !has_shift {
        if cs.len() == 1 && (cs[0] as u32) < 128 {
            return Some(Ok(build_modified_char(cs[0], false, false, false)));
        }
        let mut m = String::from_str("Error: Unknown notation \'<");
        m.append(content);
        m.append(">\'");
        return Some(Err(tool_error(m)));
    }
    if i == cs.len() {
        let mut m = String::from_str("Error: Missing key after modifiers in \'<");
        m.append(content);
        m.append(">\'");
        return Some(Err(tool_error(m)));
    }
    let rest = string_of_range(&cs, i, cs.len());
    assert(rest@ == cs@.skip(i as int));
    let key_upper = to_uppercase(rest.as_str());
    let key_chars = chars_of(key_upper.as_str());
    if let Some(seq) = modified_key_sequence(&key_chars, has_ctrl, has_alt, has_shift) {
        return Some(Ok(seq));
    }
    if cs.len() - i == 1 && (cs[i] as u32) < 128 {
        return Some(Ok(build_modified_char(cs[i], has_ctrl, has_alt, has_shift)));
    }
    let mut m = String::from_str("Error: Unknown key \'");
    m.append(rest.as_str());
    m.append("' in notation \'<");
    m.append(content);
    m.append(">\'");
    Some(Err(tool_error(m)))
}

/// Parses the notation inside `<...>` (for instance `C-a`, `RET`, `A-S-UP`) into
/// the text the keys send, or the error that the tool answers with.
pub fn parse_bracket_notation(content: &str) -> (r: Result<String, ToolResult>)
    requires
        !notation_aborts(content@),
    ensures
        string_outcome(r) == notation(content@),
        errors_flagged(r),
{
    match try_parse_bracket_notation(content) {
        Some(r) => r,
        None => {
            proof {
                assert(false);
            }
            Err(tool_error(String::new()))
        },
    }
}

/// Prefixes a successful expansion with `prefix`; an error stays as it is.
pub open spec fn prefixed(prefix: Seq<char>, r: Result<Seq<char>, Seq<char>>) -> Result<Seq<char>, Seq<char>> {
    match r {
        Ok(rest) => Ok(prefix + rest),
        Err(e) => Err(e),
    }
}

/// The first `k >= from` where `s[k..k+2]` is `>>`, or the length of `s`.
pub open spec fn literal_end(s: Seq<char>, from: int) -> int
    decreases s.len() - from,
{
    if from >= s.len() {
        s.len() as int
    } else if s[from] == '>' && from + 1 < s.len() && s[from + 1] == '>' {
        from
    } else {
        literal_end(s, from + 1)
    }
}

/// The first `k >= from` where `s[k]` is `>`, or the length of `s`.
pub open spec fn close_index(s: Seq<char>, from: int) -> int
    decreases s.len() - from,
{
    if from >= s.len() {
        s.len() as int
    } else if s[from] == '>' {
        from
    } else {
        close_index(s, from + 1)
    }
}

/// The characters that the input notation `s[i..]` stands for, or the error message.
pub open spec fn expand_from(s: Seq<char>, i: int) -> Result<Seq<char>, Seq<char>>
    decreases s.len() - i, 0int,
{
    if i < 0 || i >= s.len() {
        Ok(Seq::empty())
    } else if s[i] != '<' {
        prefixed(seq![s[i]], expand_from(s, i + 1))
    } else if i + 1 < s.len() && s[i + 1] == '<' {
        let j = literal_end(s, i + 2);
        proof {
            lemma_literal_end_bounds(s, i + 2);
        }
        if j >= s.len() {
            Err("Error: Unclosed escape sequence <<...>>"@)
        } else {
            prefixed(seq!['<'] + s.subrange(i + 2, j) + seq!['>'], expand_from(s, j + 2))
        }
    } else {
        let j = close_index(s, i + 1);
        proof {
            lemma_close_index_bounds(s, i + 1);
        }
        if j >= s.len() {
            Err("Error: Unclosed notation <...>"@)
        } else {
            match notation(s.subrange(i + 1, j)) {
                Ok(keys) => prefixed(keys, expand_from(s, j + 1)),
                Err(e) => Err(e),
            }
        }
    }
}

/// Whether expanding `s[i..]` reaches a notation whose modifier scan gets stuck.
pub open spec fn expand_aborts_from(s: Seq<char>, i: int) -> bool
    decreases s.len() - i, 0int,
{
    if i < 0 || i >= s.len() {
        false
    } else if s[i] != '<' {
        expand_aborts_from(s, i + 1)
    } else if i + 1 < s.len() && s[i + 1] == '<' {
        let j = literal_end(s, i + 2);
        proof {
            lemma_literal_end_bounds(s, i + 2);
        }
        if j >= s.len() {
            false
        } else {
            expand_aborts_from(s, j + 2)
        }
    } else {
        let j = close_index(s, i + 1);
        proof {
            lemma_close_index_bounds(s, i + 1);
        }
        if j >= s.len() {
            false
        } else if notation_aborts(s.subrange(i + 1, j)) {
            true
        } else {
            match notation(s.subrange(i + 1, j)) {
                Ok(_) => expand_aborts_from(s, j + 1),
                Err(_) => false,
            }
        }
    }
}

/// The characters that the whole input notation `s` stands for, or the error message.
pub open spec fn expand(s: Seq<char>) -> Result<Seq<char>, Seq<char>> {
    expand_from(s, 0)
}

/// Whether expanding `s` reaches a notation whose modifier scan gets stuck.
pub open spec fn input_aborts(s: Seq<char>) -> bool {
    expand_aborts_from(s, 0)
}

pub proof fn lemma_literal_end_bounds(s: Seq<char>, from: int)
    requires
        0 <= from,
    ensures
        from <= literal_end(s, from) || literal_end(s, from) == s.len(),
        literal_end(s, from) <= s.len(),
        literal_end(s, from) < s.len() ==> literal_end(s, from) + 1 < s.len(),
    decreases s.len() - from,
{
    if from < s.len() && !(s[from] == '>' && from + 1 < s.len() && s[from + 1] == '>') {
        lemma_literal_end_bounds(s, from + 1);
    }
}

pub proof fn lemma_close_index_bounds(s: Seq<char>, from: int)
    requires
        0 <= from,
    ensures
        from <= close_index(s, from) || close_index(s, from) == s.len(),
        close_index(s, from) <= s.len(),
    decreases s.len() - from,
{
    if from < s.len() && s[from] != '>' {
        lemma_close_index_bounds(s, from + 1);
    }
}

proof fn lemma_prefixed_twice(a: Seq<char>, b: Seq<char>, r: Result<Seq<char>, Seq<char>>)
    ensures
        prefixed(a, prefixed(b, r)) == prefixed(a + b, r),
{
    if let Ok(rest) = r {
        assert(a + (b + rest) =~= (a + b) + rest);
    }
}

proof fn lemma_plain_from(s: Seq<char>, i: int)
    requires
        0 <= i <= s.len(),
        forall|k: int| 0 <= k < s.len() ==> s[k] != '<',
    ensures
        expand_from(s, i) == Ok::<Seq<char>, Seq<char>>(s.subrange(i, s.len() as int)),
        !expand_aborts_from(s, i),
    decreases s.len() - i,
{
    if i < s.len() {
        lemma_plain_from(s, i + 1);
        assert(seq![s[i]] + s.subrange(i + 1, s.len() as int) =~= s.subrange(i, s.len() as int));
    } else {
        assert(s.subrange(i, s.len() as int) =~= Seq::<char>::empty());
    }
}

/// Text without `<` is sent as it stands: its expansion is the text itself,
/// and nothing in it stops the parse.
pub proof fn law_plain_text_is_sent_as_is(s: Seq<char>)
    requires
        forall|k: int| 0 <= k < s.len() ==> s[k] != '<',
    ensures
        expand(s) == Ok::<Seq<char>, Seq<char>>(s),
        !input_aborts(s),
{
    lemma_plain_from(s, 0);
    assert(s.subrange(0, s.len() as int) =~= s);
}

proof fn lemma_no_close_before(s: Seq<char>, from: int, stop: int)
    requires
        0 <= from <= stop,
        stop + 1 < s.len(),
        s[stop] == '>' && s[stop + 1] == '>',
        forall|k: int| from <= k < stop ==> s[k] != '>',
    ensures
        literal_end(s, from) == stop,
    decreases stop - from,
{
    if from < stop {
        lemma_no_close_before(s, from + 1, stop);
    }
}

/// `<<text>>`, for a text without `>`, sends the literal `<text>`, and what
/// follows is expanded after it.
pub proof fn law_escaped_literal(text: Seq<char>, rest: Seq<char>)
    requires
        forall|k: int| 0 <= k < text.len() ==> text[k] != '>',
    ensures
        expand(seq!['<', '<'] + text + seq!['>', '>'] + rest) == prefixed(
            seq!['<'] + text + seq!['>'],
            expand(rest),
        ),
        input_aborts(seq!['<', '<'] + text + seq!['>', '>'] + rest) == input_aborts(rest),
{
    let s = seq!['<', '<'] + text + seq!['>', '>'] + rest;
    let j: int = text.len() as int + 2;
    assert(s[0] == '<' && s[1] == '<');
    assert(s[j] == '>' && s[j + 1] == '>');
    assert forall|k: int| 2 <= k < j implies s[k] != '>' by {
        assert(s[k] == text[k - 2]);
    }
    lemma_no_close_before(s, 2, j);
    assert(s.subrange(2, j) =~= text);
    assert(s.subrange(j + 2, s.len() as int) =~= rest);
    lemma_suffix_expands(s, j + 2, rest);
}

proof fn lemma_suffix_expands(s: Seq<char>, at: int, rest: Seq<char>)
    requires
        0 <= at <= s.len(),
        s.subrange(at, s.len() as int) == rest,
    ensures
        expand_from(s, at) == expand_from(rest, 0),
        expand_aborts_from(s, at) == expand_aborts_from(rest, 0),
{
    assert forall|k: int| 0 <= k < rest.len() implies s[at + k] == rest[k] by {
        assert(s.subrange(at, s.len() as int)[k] == s[at + k]);
    }
    lemma_shifted(s, rest, at, 0);
}

proof fn lemma_literal_end_shift(s: Seq<char>, rest: Seq<char>, at: int, from: int)
    requires
        0 <= at,
        0 <= from,
        at + rest.len() == s.len(),
        forall|k: int| 0 <= k < rest.len() ==> s[at + k] == rest[k],
    ensures
        literal_end(s, at + from) == at + literal_end(rest, from),
    decreases rest.len() - from,
{
    if from < rest.len() {
        assert(s[at + from] == rest[from]);
        if from + 1 < rest.len() {
            assert(s[at + from + 1] == rest[from + 1]);
        }
        lemma_literal_end_shift(s, rest, at, from + 1);
    }
}

proof fn lemma_close_index_shift(s: Seq<char>, rest: Seq<char>, at: int, from: int)
    requires
        0 <= at,
        0 <= from,
        at + rest.len() == s.len(),
        forall|k: int| 0 <= k < rest.len() ==> s[at + k] == rest[k],
    ensures
        close_index(s, at + from) == at + close_index(rest, from),
    decreases rest.len() - from,
{
    if from < rest.len() {
        assert(s[at + from] == rest[from]);
        lemma_close_index_shift(s, rest, at, from + 1);
    }
}

proof fn lemma_shifted(s: Seq<char>, rest: Seq<char>, at: int, i: int)
    requires
        0 <= at,
        0 <= i <= rest.len(),
        at + rest.len() == s.len(),
        forall|k: int| 0 <= k < rest.len() ==> s[at + k] == rest[k],
    ensures
        expand_from(s, at + i) == expand_from(rest, i),
        expand_aborts_from(s, at + i) == expand_aborts_from(rest, i),
    decreases rest.len() - i,
{
    let t = at + i;
    if i < rest.len() {
        assert(s[t] == rest[i]);
        if i + 1 < rest.len() {
            assert(s[t + 1] == rest[i + 1]);
        }
        if rest[i] != '<' {
            lemma_shifted(s, rest, at, i + 1);
        } else if i + 1 < rest.len() && rest[i + 1] == '<' {
            lemma_literal_end_shift(s, rest, at, i + 2);
            lemma_literal_end_bounds(rest, i + 2);
            let j = literal_end(rest, i + 2);
            if j < rest.len() {
                assert(s.subrange(t + 2, at + j) =~= rest.subrange(i + 2, j));
                lemma_shifted(s, rest, at, j + 2);
            }
        } else {
            lemma_close_index_shift(s, rest, at, i + 1);
            lemma_close_index_bounds(rest, i + 1);
            let j = close_index(rest, i + 1);
            if j < rest.len() {
                assert(s.subrange(t + 1, at + j) =~= rest.subrange(i + 1, j));
                lemma_shifted(s, rest, at, j + 1);
            }
        }
    }
}

/// Every key name stands for its own sequence, whatever its ASCII case:
/// Enter `CR`, Tab `HT`, Backspace 0x7f, Delete `ESC [ 3 ~`, Escape `ESC`,
/// Space, the arrows `ESC [ A` (up), `ESC [ B` (down), `ESC [ C` (right) and
/// `ESC [ D` (left), Home `ESC [ H`, End `ESC [ F`, Page Up `ESC [ 5 ~`, Page
/// Down `ESC [ 6 ~`, Insert `ESC [ 2 ~`, F1 to F4 `ESC O P` to `ESC O S`, and
/// F5 to F12 `ESC [ 15 ~` to `ESC [ 24 ~`.
#[verifier::rlimit(50)]
pub proof fn law_named_keys(c: Seq<char>)
    requires
        c.len() > 0,
        is_ascii_text(c),
    ensures
        ({
            let u = ascii_upper(c);
            &&& (u == "RET"@ || u == "RETURN"@ || u == "CR"@) ==> notation(c) == Ok::<Seq<char>, Seq<char>>("\r"@)
            &&& (u == "TAB"@) ==> notation(c) == Ok::<Seq<char>, Seq<char>>("\t"@)
            &&& (u == "BSPC"@ || u == "BACKSPACE"@ || u == "BS"@) ==> notation(c) == Ok::<Seq<char>, Seq<char>>("\x7f"@)
            &&& (u == "DEL"@ || u == "DELETE"@) ==> notation(c) == Ok::<Seq<char>, Seq<char>>("\x1b[3~"@)
            &&& (u == "ESC"@ || u == "ESCAPE"@) ==> notation(c) == Ok::<Seq<char>, Seq<char>>("\x1b"@)
            &&& (u == "SPACE"@) ==> notation(c) == Ok::<Seq<char>, Seq<char>>(" "@)
            &&& (u == "UP"@) ==> notation(c) == Ok::<Seq<char>, Seq<char>>("\x1b[A"@)
            &&& (u == "DOWN"@) ==> notation(c) == Ok::<Seq<char>, Seq<char>>("\x1b[B"@)
            &&& (u == "RIGHT"@) ==> notation(c) == Ok::<Seq<char>, Seq<char>>("\x1b[C"@)
            &&& (u == "LEFT"@) ==> notation(c) == Ok::<Seq<char>, Seq<char>>("\x1b[D"@)
            &&& (u == "HOME"@) ==> notation(c) == Ok::<Seq<char>, Seq<char>>("\x1b[H"@)
            &&& (u == "END"@) ==> notation(c) == Ok::<Seq<char>, Seq<char>>("\x1b[F"@)
            &&& (u == "PGUP"@ || u == "PAGEUP"@ || u == "PAGE_UP"@) ==> notation(c) == Ok::<Seq<char>, Seq<char>>("\x1b[5~"@)
            &&& (u == "PGDN"@ || u == "PAGEDOWN"@ || u == "PAGE_DOWN"@) ==> notation(c) == Ok::<Seq<char>, Seq<char>>("\x1b[6~"@)
            &&& (u == "INS"@ || u == "INSERT"@) ==> notation(c) == Ok::<Seq<char>, Seq<char>>("\x1b[2~"@)
            &&& (u == "F1"@) ==> notation(c) == Ok::<Seq<char>, Seq<char>>("\x1bOP"@)
            &&& (u == "F2"@) ==> notation(c) == Ok::<Seq<char>, Seq<char>>("\x1bOQ"@)
            &&& (u == "F3"@) ==> notation(c) == Ok::<Seq<char>, Seq<char>>("\x1bOR"@)
            &&& (u == "F4"@) ==> notation(c) == Ok::<Seq<char>, Seq<char>>("\x1bOS"@)
            &&& (u == "F5"@) ==> notation(c) == Ok::<Seq<char>, Seq<char>>("\x1b[15~"@)
            &&& (u == "F6"@) ==> notation(c) == Ok::<Seq<char>, Seq<char>>("\x1b[17~"@)
            &&& (u == "F7"@) ==> notation(c) == Ok::<Seq<char>, Seq<char>>("\x1b[18~"@)
            &&& (u == "F8"@) ==> notation(c) == Ok::<Seq<char>, Seq<char>>("\x1b[19~"@)
            &&& (u == "F9"@) ==> notation(c) == Ok::<Seq<char>, Seq<char>>("\x1b[20~"@)
            &&& (u == "F10"@) ==> notation(c) == Ok::<Seq<char>, Seq<char>>("\x1b[21~"@)
            &&& (u == "F11"@) ==> notation(c) == Ok::<Seq<char>, Seq<char>>("\x1b[23~"@)
            &&& (u == "F12"@) ==> notation(c) == Ok::<Seq<char>, Seq<char>>("\x1b[24~"@)
        }),
{
    reveal_strlit("RET");
    reveal_strlit("RETURN");
    reveal_strlit("CR");
    reveal_strlit("TAB");
    reveal_strlit("BSPC");
    reveal_strlit("BACKSPACE");
    reveal_strlit("BS");
    reveal_strlit("DEL");
    reveal_strlit("DELETE");
    reveal_strlit("ESC");
    reveal_strlit("ESCAPE");
    reveal_strlit("SPACE");
    reveal_strlit("UP");
    reveal_strlit("DOWN");
    reveal_strlit("RIGHT");
    reveal_strlit("LEFT");
    reveal_strlit("HOME");
    reveal_strlit("END");
    reveal_strlit("PGUP");
    reveal_strlit("PAGEUP");
    reveal_strlit("PAGE_UP");
    reveal_strlit("PGDN");
    reveal_strlit("PAGEDOWN");
    reveal_strlit("PAGE_DOWN");
    reveal_strlit("INS");
    reveal_strlit("INSERT");
    reveal_strlit("F1");
    reveal_strlit("F2");
    reveal_strlit("F3");
    reveal_strlit("F4");
    reveal_strlit("F5");
    reveal_strlit("F6");
    reveal_strlit("F7");
    reveal_strlit("F8");
    reveal_strlit("F9");
    reveal_strlit("F10");
    reveal_strlit("F11");
    reveal_strlit("F12");
    assert("RET"@.len() == 3);
    assert("RETURN"@.len() == 6);
    assert("CR"@.len() == 2);
    assert("TAB"@.len() == 3);
    assert("BSPC"@.len() == 4);
    assert("BACKSPACE"@.len() == 9);
    assert("BS"@.len() == 2);
    assert("DEL"@.len() == 3);
    assert("DELETE"@.len() == 6);
    assert("ESC"@.len() == 3);
    assert("ESCAPE"@.len() == 6);
    assert("SPACE"@.len() == 5);
    assert("UP"@.len() == 2);
    assert("DOWN"@.len() == 4);
    assert("RIGHT"@.len() == 5);
    assert("LEFT"@.len() == 4);
    assert("HOME"@.len() == 4);
    assert("END"@.len() == 3);
    assert("PGUP"@.len() == 4);
    assert("PAGEUP"@.len() == 6);
    assert("PAGE_UP"@.len() == 7);
    assert("PGDN"@.len() == 4);
    assert("PAGEDOWN"@.len() == 8);
    assert("PAGE_DOWN"@.len() == 9);
    assert("INS"@.len() == 3);
    assert("INSERT"@.len() == 6);
    assert("F1"@.len() == 2);
    assert("F2"@.len() == 2);
    assert("F3"@.len() == 2);
    assert("F4"@.len() == 2);
    assert("F5"@.len() == 2);
    assert("F6"@.len() == 2);
    assert("F7"@.len() == 2);
    assert("F8"@.len() == 2);
    assert("F9"@.len() == 2);
    assert("F10"@.len() == 3);
    assert("F11"@.len() == 3);
    assert("F12"@.len() == 3);
    assert("RET"@[0] != "TAB"@[0]);
    assert("RET"@[0] != "DEL"@[0]);
    assert("RET"@[0] != "ESC"@[0]);
    assert("RET"@[0] != "END"@[0]);
    assert("RET"@[0] != "INS"@[0]);
    assert("RET"@[0] != "F10"@[0]);
    assert("RET"@[0] != "F11"@[0]);
    assert("RET"@[0] != "F12"@[0]);
    assert("RETURN"@[0] != "DELETE"@[0]);
    assert("RETURN"@[0] != "ESCAPE"@[0]);
    assert("RETURN"@[0] != "PAGEUP"@[0]);
    assert("RETURN"@[0] != "INSERT"@[0]);
    assert("CR"@[0] != "BS"@[0]);
    assert("CR"@[0] != "UP"@[0]);
    assert("CR"@[0] != "F1"@[0]);
    assert("CR"@[0] != "F2"@[0]);
    assert("CR"@[0] != "F3"@[0]);
    assert("CR"@[0] != "F4"@[0]);
    assert("CR"@[0] != "F5"@[0]);
    assert("CR"@[0] != "F6"@[0]);
    assert("CR"@[0] != "F7"@[0]);
    assert("CR"@[0] != "F8"@[0]);
    assert("CR"@[0] != "F9"@[0]);
    assert("TAB"@[0] != "DEL"@[0]);
    assert("TAB"@[0] != "ESC"@[0]);
    assert("TAB"@[0] != "END"@[0]);
    assert("TAB"@[0] != "INS"@[0]);
    assert("TAB"@[0] != "F10"@[0]);
    assert("TAB"@[0] != "F11"@[0]);
    assert("TAB"@[0] != "F12"@[0]);
    assert("BSPC"@[0] != "DOWN"@[0]);
    assert("BSPC"@[0] != "LEFT"@[0]);
    assert("BSPC"@[0] != "HOME"@[0]);
    assert("BSPC"@[0] != "PGUP"@[0]);
    assert("BSPC"@[0] != "PGDN"@[0]);
    assert("BACKSPACE"@[0] != "PAGE_DOWN"@[0]);
    assert("BS"@[0] != "UP"@[0]);
    assert("BS"@[0] != "F1"@[0]);
    assert("BS"@[0] != "F2"@[0]);
    assert("BS"@[0] != "F3"@[0]);
    assert("BS"@[0] != "F4"@[0]);
    assert("BS"@[0] != "F5"@[0]);
    assert("BS"@[0] != "F6"@[0]);
    assert("BS"@[0] != "F7"@[0]);
    assert("BS"@[0] != "F8"@[0]);
    assert("BS"@[0] != "F9"@[0]);
    assert("DEL"@[0] != "ESC"@[0]);
    assert("DEL"@[0] != "END"@[0]);
    assert("DEL"@[0] != "INS"@[0]);
    assert("DEL"@[0] != "F10"@[0]);
    assert("DEL"@[0] != "F11"@[0]);
    assert("DEL"@[0] != "F12"@[0]);
    assert("DELETE"@[0] != "ESCAPE"@[0]);
    assert("DELETE"@[0] != "PAGEUP"@[0]);
    assert("DELETE"@[0] != "INSERT"@[0]);
    assert("ESC"@[1] != "END"@[1]);
    assert("ESC"@[0] != "INS"@[0]);
    assert("ESC"@[0] != "F10"@[0]);
    assert("ESC"@[0] != "F11"@[0]);
    assert("ESC"@[0] != "F12"@[0]);
    assert("ESCAPE"@[0] != "PAGEUP"@[0]);
    assert("ESCAPE"@[0] != "INSERT"@[0]);
    assert("SPACE"@[0] != "RIGHT"@[0]);
    assert("UP"@[0] != "F1"@[0]);
    assert("UP"@[0] != "F2"@[0]);
    assert("UP"@[0] != "F3"@[0]);
    assert("UP"@[0] != "F4"@[0]);
    assert("UP"@[0] != "F5"@[0]);
    assert("UP"@[0] != "F6"@[0]);
    assert("UP"@[0] != "F7"@[0]);
    assert("UP"@[0] != "F8"@[0]);
    assert("UP"@[0] != "F9"@[0]);
    assert("DOWN"@[0] != "LEFT"@[0]);
    assert("DOWN"@[0] != "HOME"@[0]);
    assert("DOWN"@[0] != "PGUP"@[0]);
    assert("DOWN"@[0] != "PGDN"@[0]);
    assert("LEFT"@[0] != "HOME"@[0]);
    assert("LEFT"@[0] != "PGUP"@[0]);
    assert("LEFT"@[0] != "PGDN"@[0]);
    assert("HOME"@[0] != "PGUP"@[0]);
    assert("HOME"@[0] != "PGDN"@[0]);
    assert("END"@[0] != "INS"@[0]);
    assert("END"@[0] != "F10"@[0]);
    assert("END"@[0] != "F11"@[0]);
    assert("END"@[0] != "F12"@[0]);
    assert("PGUP"@[2] != "PGDN"@[2]);
    assert("PAGEUP"@[0] != "INSERT"@[0]);
    assert("INS"@[0] != "F10"@[0]);
    assert("INS"@[0] != "F11"@[0]);
    assert("INS"@[0] != "F12"@[0]);
    assert("F1"@[1] != "F2"@[1]);
    assert("F1"@[1] != "F3"@[1]);
    assert("F1"@[1] != "F4"@[1]);
    assert("F1"@[1] != "F5"@[1]);
    assert("F1"@[1] != "F6"@[1]);
    assert("F1"@[1] != "F7"@[1]);
    assert("F1"@[1] != "F8"@[1]);
    assert("F1"@[1] != "F9"@[1]);
    assert("F2"@[1] != "F3"@[1]);
    assert("F2"@[1] != "F4"@[1]);
    assert("F2"@[1] != "F5"@[1]);
    assert("F2"@[1] != "F6"@[1]);
    assert("F2"@[1] != "F7"@[1]);
    assert("F2"@[1] != "F8"@[1]);
    assert("F2"@[1] != "F9"@[1]);
    assert("F3"@[1] != "F4"@[1]);
    assert("F3"@[1] != "F5"@[1]);
    assert("F3"@[1] != "F6"@[1]);
    assert("F3"@[1] != "F7"@[1]);
    assert("F3"@[1] != "F8"@[1]);
    assert("F3"@[1] != "F9"@[1]);
    assert("F4"@[1] != "F5"@[1]);
    assert("F4"@[1] != "F6"@[1]);
    assert("F4"@[1] != "F7"@[1]);
    assert("F4"@[1] != "F8"@[1]);
    assert("F4"@[1] != "F9"@[1]);
    assert("F5"@[1] != "F6"@[1]);
    assert("F5"@[1] != "F7"@[1]);
    assert("F5"@[1] != "F8"@[1]);
    assert("F5"@[1] != "F9"@[1]);
    assert("F6"@[1] != "F7"@[1]);
    assert("F6"@[1] != "F8"@[1]);
    assert("F6"@[1] != "F9"@[1]);
    assert("F7"@[1] != "F8"@[1]);
    assert("F7"@[1] != "F9"@[1]);
    assert("F8"@[1] != "F9"@[1]);
    assert("F10"@[2] != "F11"@[2]);
    assert("F10"@[2] != "F12"@[2]);
    assert("F11"@[2] != "F12"@[2]);
    let u = ascii_upper(c);
    assert(upper_case(c) == u);
    if u == "RET"@ || u == "RETURN"@ || u == "CR"@ {
        assert(special_name(u) == Some("\r"@));
    }
    if u == "TAB"@ {
        assert(special_name(u) == Some("\t"@));
    }
    if u == "BSPC"@ || u == "BACKSPACE"@ || u == "BS"@ {
        assert(special_name(u) == Some("\x7f"@));
    }
    if u == "DEL"@ || u == "DELETE"@ {
        assert(special_name(u) == Some("\x1b[3~"@));
    }
    if u == "ESC"@ || u == "ESCAPE"@ {
        assert(special_name(u) == Some("\x1b"@));
    }
    if u == "SPACE"@ {
        assert(special_name(u) == Some(" "@));
    }
    if u == "UP"@ {
        assert(special_name(u) == Some("\x1b[A"@));
    }
    if u == "DOWN"@ {
        assert(special_name(u) == Some("\x1b[B"@));
    }
    if u == "RIGHT"@ {
        assert(special_name(u) == Some("\x1b[C"@));
    }
    if u == "LEFT"@ {
        assert(special_name(u) == Some("\x1b[D"@));
    }
    if u == "HOME"@ {
        assert(special_name(u) == Some("\x1b[H"@));
    }
    if u == "END"@ {
        assert(special_name(u) == Some("\x1b[F"@));
    }
    if u == "PGUP"@ || u == "PAGEUP"@ || u == "PAGE_UP"@ {
        assert(special_name(u) == Some("\x1b[5~"@));
    }
    if u == "PGDN"@ || u == "PAGEDOWN"@ || u == "PAGE_DOWN"@ {
        assert(special_name(u) == Some("\x1b[6~"@));
    }
    if u == "INS"@ || u == "INSERT"@ {
        assert(special_name(u) == Some("\x1b[2~"@));
    }
    if u == "F1"@ {
        assert(special_name(u) == Some("\x1bOP"@));
    }
    if u == "F2"@ {
        assert(special_name(u) == Some("\x1bOQ"@));
    }
    if u == "F3"@ {
        assert(special_name(u) == Some("\x1bOR"@));
    }
    if u == "F4"@ {
        assert(special_name(u) == Some("\x1bOS"@));
    }
    if u == "F5"@ {
        assert(special_name(u) == Some("\x1b[15~"@));
    }
    if u == "F6"@ {
        assert(special_name(u) == Some("\x1b[17~"@));
    }
    if u == "F7"@ {
        assert(special_name(u) == Some("\x1b[18~"@));
    }
    if u == "F8"@ {
        assert(special_name(u) == Some("\x1b[19~"@));
    }
    if u == "F9"@ {
        assert(special_name(u) == Some("\x1b[20~"@));
    }
    if u == "F10"@ {
        assert(special_name(u) == Some("\x1b[21~"@));
    }
    if u == "F11"@ {
        assert(special_name(u) == Some("\x1b[23~"@));
    }
    if u == "F12"@ {
        assert(special_name(u) == Some("\x1b[24~"@));
    }
}

/// Every key named after modifiers sends its own sequence. Enter sends `CR`
/// (`LF` with Ctrl), Tab `HT` (`ESC [ Z` with Shift), Backspace 0x7f. The
/// arrows send `ESC [ A` (up), `ESC [ B` (down), `ESC [ C` (right), `ESC [ D`
/// (left), Home `ESC [ H` and End `ESC [ F`, and `ESC [ 1 ; m X` with
/// modifiers, where `m` is 1 plus 1 for Shift, 2 for Alt and 4 for Ctrl.
/// Delete, Insert, Page Up and Page Down send `ESC [ 3 ~`, `ESC [ 2 ~`,
/// `ESC [ 5 ~` and `ESC [ 6 ~`, with `;2` for Shift, else `;5` for Ctrl, else
/// `;3` for Alt before the `~`.
#[verifier::rlimit(100)]
pub proof fn law_modified_keys(u: Seq<char>, ctrl: bool, alt: bool, shift: bool)
    ensures
        ({
            let plain = !ctrl && !alt && !shift;
            let d = (48 + 1 + (if shift { 1int } else { 0 }) + (if alt { 2int } else { 0 }) + (if ctrl { 4int } else { 0 })) as char;
            &&& (u == "RET"@ || u == "RETURN"@) ==> modified_key(u, ctrl, alt, shift) == Some(if ctrl { seq!['\n'] } else { seq!['\r'] })
            &&& u == "TAB"@ ==> modified_key(u, ctrl, alt, shift) == Some(if shift { seq!['\x1b', '[', 'Z'] } else { seq!['\t'] })
            &&& (u == "BSPC"@ || u == "BACKSPACE"@ || u == "BS"@) ==> modified_key(u, ctrl, alt, shift) == Some(seq!['\x7f'])
            &&& u == "UP"@ ==> modified_key(u, ctrl, alt, shift) == Some(if plain { seq!['\x1b', '[', 'A'] } else { seq!['\x1b', '[', '1', ';', d, 'A'] })
            &&& u == "DOWN"@ ==> modified_key(u, ctrl, alt, shift) == Some(if plain { seq!['\x1b', '[', 'B'] } else { seq!['\x1b', '[', '1', ';', d, 'B'] })
            &&& u == "RIGHT"@ ==> modified_key(u, ctrl, alt, shift) == Some(if plain { seq!['\x1b', '[', 'C'] } else { seq!['\x1b', '[', '1', ';', d, 'C'] })
            &&& u == "LEFT"@ ==> modified_key(u, ctrl, alt, shift) == Some(if plain { seq!['\x1b', '[', 'D'] } else { seq!['\x1b', '[', '1', ';', d, 'D'] })
            &&& u == "HOME"@ ==> modified_key(u, ctrl, alt, shift) == Some(if plain { seq!['\x1b', '[', 'H'] } else { seq!['\x1b', '[', '1', ';', d, 'H'] })
            &&& u == "END"@ ==> modified_key(u, ctrl, alt, shift) == Some(if plain { seq!['\x1b', '[', 'F'] } else { seq!['\x1b', '[', '1', ';', d, 'F'] })
            &&& (u == "DEL"@ || u == "DELETE"@) ==> modified_key(u, ctrl, alt, shift) == Some(if shift { seq!['\x1b', '[', '3', ';', '2', '~'] } else if ctrl { seq!['\x1b', '[', '3', ';', '5', '~'] } else if alt { seq!['\x1b', '[', '3', ';', '3', '~'] } else { seq!['\x1b', '[', '3', '~'] })
            &&& (u == "INS"@ || u == "INSERT"@) ==> modified_key(u, ctrl, alt, shift) == Some(if shift { seq!['\x1b', '[', '2', ';', '2', '~'] } else if ctrl { seq!['\x1b', '[', '2', ';', '5', '~'] } else if alt { seq!['\x1b', '[', '2', ';', '3', '~'] } else { seq!['\x1b', '[', '2', '~'] })
            &&& (u == "PGUP"@ || u == "PAGEUP"@) ==> modified_key(u, ctrl, alt, shift) == Some(if shift { seq!['\x1b', '[', '5', ';', '2', '~'] } else if ctrl { seq!['\x1b', '[', '5', ';', '5', '~'] } else if alt { seq!['\x1b', '[', '5', ';', '3', '~'] } else { seq!['\x1b', '[', '5', '~'] })
            &&& (u == "PGDN"@ || u == "PAGEDOWN"@) ==> modified_key(u, ctrl, alt, shift) == Some(if shift { seq!['\x1b', '[', '6', ';', '2', '~'] } else if ctrl { seq!['\x1b', '[', '6', ';', '5', '~'] } else if alt { seq!['\x1b', '[', '6', ';', '3', '~'] } else { seq!['\x1b', '[', '6', '~'] })
        }),
{
    reveal_strlit("RET");
    reveal_strlit("RETURN");
    reveal_strlit("TAB");
    reveal_strlit("BSPC");
    reveal_strlit("BACKSPACE");
    reveal_strlit("BS");
    reveal_strlit("DEL");
    reveal_strlit("DELETE");
    reveal_strlit("UP");
    reveal_strlit("DOWN");
    reveal_strlit("RIGHT");
    reveal_strlit("LEFT");
    reveal_strlit("HOME");
    reveal_strlit("END");
    reveal_strlit("INS");
    reveal_strlit("INSERT");
    reveal_strlit("PGUP");
    reveal_strlit("PAGEUP");
    reveal_strlit("PGDN");
    reveal_strlit("PAGEDOWN");
    assert("RET"@.len() == 3);
    assert("RETURN"@.len() == 6);
    assert("TAB"@.len() == 3);
    assert("BSPC"@.len() == 4);
    assert("BACKSPACE"@.len() == 9);
    assert("BS"@.len() == 2);
    assert("DEL"@.len() == 3);
    assert("DELETE"@.len() == 6);
    assert("UP"@.len() == 2);
    assert("DOWN"@.len() == 4);
    assert("RIGHT"@.len() == 5);
    assert("LEFT"@.len() == 4);
    assert("HOME"@.len() == 4);
    assert("END"@.len() == 3);
    assert("INS"@.len() == 3);
    assert("INSERT"@.len() == 6);
    assert("PGUP"@.len() == 4);
    assert("PAGEUP"@.len() == 6);
    assert("PGDN"@.len() == 4);
    assert("PAGEDOWN"@.len() == 8);
    reveal_strlit("\x1b[");
    reveal_strlit("\x1b[1");
    reveal_strlit("A");
    reveal_strlit("B");
    reveal_strlit("C");
    reveal_strlit("D");
    reveal_strlit("H");
    reveal_strlit("F");
    reveal_strlit(";2");
    reveal_strlit(";3");
    reveal_strlit(";4");
    reveal_strlit(";5");
    reveal_strlit(";6");
    reveal_strlit(";7");
    reveal_strlit(";8");
    reveal_strlit("\n");
    reveal_strlit("\r");
    reveal_strlit("\x1b[Z");
    reveal_strlit("\t");
    reveal_strlit("\x7f");
    reveal_strlit("\x1b[3;2~");
    reveal_strlit("\x1b[3;5~");
    reveal_strlit("\x1b[3;3~");
    reveal_strlit("\x1b[3~");
    reveal_strlit("\x1b[2;2~");
    reveal_strlit("\x1b[2;5~");
    reveal_strlit("\x1b[2;3~");
    reveal_strlit("\x1b[2~");
    reveal_strlit("\x1b[5;2~");
    reveal_strlit("\x1b[5;5~");
    reveal_strlit("\x1b[5;3~");
    reveal_strlit("\x1b[5~");
    reveal_strlit("\x1b[6;2~");
    reveal_strlit("\x1b[6;5~");
    reveal_strlit("\x1b[6;3~");
    reveal_strlit("\x1b[6~");
    assert("RET"@[0] != "TAB"@[0]);
    assert("RET"@[0] != "DEL"@[0]);
    assert("RET"@[0] != "END"@[0]);
    assert("RET"@[0] != "INS"@[0]);
    assert("RETURN"@[0] != "DELETE"@[0]);
    assert("RETURN"@[0] != "INSERT"@[0]);
    assert("RETURN"@[0] != "PAGEUP"@[0]);
    assert("TAB"@[0] != "DEL"@[0]);
    assert("TAB"@[0] != "END"@[0]);
    assert("TAB"@[0] != "INS"@[0]);
    assert("BSPC"@[0] != "DOWN"@[0]);
    assert("BSPC"@[0] != "LEFT"@[0]);
    assert("BSPC"@[0] != "HOME"@[0]);
    assert("BSPC"@[0] != "PGUP"@[0]);
    assert("BSPC"@[0] != "PGDN"@[0]);
    assert("BS"@[0] != "UP"@[0]);
    assert("DEL"@[0] != "END"@[0]);
    assert("DEL"@[0] != "INS"@[0]);
    assert("DELETE"@[0] != "INSERT"@[0]);
    assert("DELETE"@[0] != "PAGEUP"@[0]);
    assert("DOWN"@[0] != "LEFT"@[0]);
    assert("DOWN"@[0] != "HOME"@[0]);
    assert("DOWN"@[0] != "PGUP"@[0]);
    assert("DOWN"@[0] != "PGDN"@[0]);
    assert("LEFT"@[0] != "HOME"@[0]);
    assert("LEFT"@[0] != "PGUP"@[0]);
    assert("LEFT"@[0] != "PGDN"@[0]);
    assert("HOME"@[0] != "PGUP"@[0]);
    assert("HOME"@[0] != "PGDN"@[0]);
    assert("END"@[0] != "INS"@[0]);
    assert("INSERT"@[0] != "PAGEUP"@[0]);
    assert("PGUP"@[2] != "PGDN"@[2]);
    let plain = !ctrl && !alt && !shift;
    let d = (48 + 1 + (if shift { 1int } else { 0 }) + (if alt { 2int } else { 0 }) + (if ctrl { 4int } else { 0 })) as char;
    if u == "UP"@ {
        assert(modified_vt_sequence("A"@, shift, ctrl, alt) =~= (if plain { seq!['\x1b', '[', 'A'] } else { seq!['\x1b', '[', '1', ';', d, 'A'] }));
    }
    if u == "DOWN"@ {
        assert(modified_vt_sequence("B"@, shift, ctrl, alt) =~= (if plain { seq!['\x1b', '[', 'B'] } else { seq!['\x1b', '[', '1', ';', d, 'B'] }));
    }
    if u == "RIGHT"@ {
        assert(modified_vt_sequence("C"@, shift, ctrl, alt) =~= (if plain { seq!['\x1b', '[', 'C'] } else { seq!['\x1b', '[', '1', ';', d, 'C'] }));
    }
    if u == "LEFT"@ {
        assert(modified_vt_sequence("D"@, shift, ctrl, alt) =~= (if plain { seq!['\x1b', '[', 'D'] } else { seq!['\x1b', '[', '1', ';', d, 'D'] }));
    }
    if u == "HOME"@ {
        assert(modified_vt_sequence("H"@, shift, ctrl, alt) =~= (if plain { seq!['\x1b', '[', 'H'] } else { seq!['\x1b', '[', '1', ';', d, 'H'] }));
    }
    if u == "END"@ {
        assert(modified_vt_sequence("F"@, shift, ctrl, alt) =~= (if plain { seq!['\x1b', '[', 'F'] } else { seq!['\x1b', '[', '1', ';', d, 'F'] }));
    }
}

/// Key names are matched without regard to ASCII case: an ASCII notation
/// whose uppercase names a key (such as `ret`, `Ret` or `RET`) stands for
/// that key, as does every spelling of it that differs only in case.
pub proof fn law_key_names_ignore_case(a: Seq<char>, b: Seq<char>)
    requires
        a.len() > 0,
        is_ascii_text(a),
        is_ascii_text(b),
        ascii_upper(a) == ascii_upper(b),
        special_name(ascii_upper(a)) is Some,
    ensures
        notation(a) == Ok::<Seq<char>, Seq<char>>(special_name(ascii_upper(a))->0),
        notation(a) == notation(b),
{
    assert(ascii_upper(a).len() == a.len());
    assert(ascii_upper(b).len() == b.len());
}

/// `<c>`, for a notation `c` without `>` that does not start with `<`,
/// expands exactly as the notation `c`, and stops the parse exactly where
/// the notation's modifier scan gets stuck.
pub proof fn law_single_notation(c: Seq<char>)
    requires
        forall|k: int| 0 <= k < c.len() ==> c[k] != '>',
        !(c.len() > 0 && c[0] == '<'),
    ensures
        expand(seq!['<'] + c + seq!['>']) == notation(c),
        input_aborts(seq!['<'] + c + seq!['>']) == notation_aborts(c),
{
    let s = seq!['<'] + c + seq!['>'];
    let j: int = c.len() as int + 1;
    assert(s[0] == '<');
    assert(s[1] != '<') by {
        if c.len() > 0 {
            assert(s[1] == c[0]);
        }
    }
    assert(s[j] == '>');
    assert forall|k: int| 1 <= k < j implies s[k] != '>' by {
        assert(s[k] == c[k - 1]);
    }
    lemma_close_before(s, 1, j);
    assert(s.subrange(1, j) =~= c);
    assert(expand_from(s, j + 1) == Ok::<Seq<char>, Seq<char>>(Seq::empty()));
    assert(!expand_aborts_from(s, j + 1));
    if let Ok(keys) = notation(c) {
        assert(keys + Seq::<char>::empty() =~= keys);
    }
}

proof fn lemma_close_before(s: Seq<char>, from: int, stop: int)
    requires
        0 <= from <= stop < s.len(),
        s[stop] == '>',
        forall|k: int| from <= k < stop ==> s[k] != '>',
    ensures
        close_index(s, from) == stop,
    decreases stop - from,
{
    if from < stop {
        lemma_close_before(s, from + 1, stop);
    }
}

proof fn lemma_literal_end_prefix(a: Seq<char>, b: Seq<char>, from: int)
    requires
        0 <= from,
        literal_end(a, from) < a.len(),
    ensures
        literal_end(a + b, from) == literal_end(a, from),
    decreases a.len() - from,
{
    let s = a + b;
    if from < a.len() {
        assert(s[from] == a[from]);
        if from + 1 < a.len() {
            assert(s[from + 1] == a[from + 1]);
        }
        if !(a[from] == '>' && from + 1 < a.len() && a[from + 1] == '>') {
            lemma_literal_end_prefix(a, b, from + 1);
        }
    }
}

proof fn lemma_close_index_prefix(a: Seq<char>, b: Seq<char>, from: int)
    requires
        0 <= from,
        close_index(a, from) < a.len(),
    ensures
        close_index(a + b, from) == close_index(a, from),
    decreases a.len() - from,
{
    let s = a + b;
    if from < a.len() {
        assert(s[from] == a[from]);
        if a[from] != '>' {
            lemma_close_index_prefix(a, b, from + 1);
        }
    }
}

proof fn lemma_prefix_from(a: Seq<char>, b: Seq<char>, i: int)
    requires
        0 <= i <= a.len(),
        expand_from(a, i) is Ok,
        !expand_aborts_from(a, i),
    ensures
        expand_from(a + b, i) == prefixed(expand_from(a, i)->Ok_0, expand_from(a + b, a.len() as int)),
        expand_aborts_from(a + b, i) == expand_aborts_from(a + b, a.len() as int),
    decreases a.len() - i,
{
    let s = a + b;
    if i == a.len() {
        if let Ok(rest) = expand_from(s, i) {
            assert(Seq::<char>::empty() + rest =~= rest);
        }
    } else {
        assert(s[i] == a[i]);
        if i + 1 < a.len() {
            assert(s[i + 1] == a[i + 1]);
        }
        if a[i] != '<' {
            lemma_prefix_from(a, b, i + 1);
            lemma_prefixed_twice(seq![a[i]], expand_from(a, i + 1)->Ok_0, expand_from(s, a.len() as int));
        } else if i + 1 < a.len() && a[i + 1] == '<' {
            lemma_literal_end_bounds(a, i + 2);
            let j = literal_end(a, i + 2);
            lemma_literal_end_prefix(a, b, i + 2);
            assert(s.subrange(i + 2, j) =~= a.subrange(i + 2, j));
            lemma_prefix_from(a, b, j + 2);
            lemma_prefixed_twice(
                seq!['<'] + a.subrange(i + 2, j) + seq!['>'],
                expand_from(a, j + 2)->Ok_0,
                expand_from(s, a.len() as int),
            );
        } else {
            lemma_close_index_bounds(a, i + 1);
            let j = close_index(a, i + 1);
            lemma_close_index_prefix(a, b, i + 1);
            assert(s.subrange(i + 1, j) =~= a.subrange(i + 1, j));
            lemma_prefix_from(a, b, j + 1);
            lemma_prefixed_twice(
                notation(a.subrange(i + 1, j))->Ok_0,
                expand_from(a, j + 1)->Ok_0,
                expand_from(s, a.len() as int),
            );
        }
    }
}

/// A well-formed input expands independently of what follows it: when `a`
/// expands to `x` without stopping the parse, `a` followed by `b` expands to
/// `x` followed by the expansion of `b` (or to `b`'s error), and stops the
/// parse exactly when `b` does.
pub proof fn law_prefix_expands_independently(a: Seq<char>, b: Seq<char>)
    requires
        expand(a) is Ok,
        !input_aborts(a),
    ensures
        expand(a + b) == prefixed(expand(a)->Ok_0, expand(b)),
        input_aborts(a + b) == input_aborts(b),
{
    lemma_prefix_from(a, b, 0);
    let s = a + b;
    assert(s.subrange(a.len() as int, s.len() as int) =~= b);
    lemma_suffix_expands(s, a.len() as int, b);
}

/// Finds where a `<<...>>` literal ends: the first `>>` at or after `from`.
fn find_literal_end(cs: &Vec<char>, from: usize) -> (j: usize)
    requires
        from <= cs@.len(),
    ensures
        j as int == literal_end(cs@, from as int),
{
    let mut k = from;
    while k < cs.len()
        invariant
            from <= k <= cs@.len(),
            literal_end(cs@, from as int) == literal_end(cs@, k as int),
        decreases cs.len() - k,
    {
        if cs[k] == '>' && k + 1 < cs.len() && cs[k + 1] == '>' {
            return k;
        }
        k = k + 1;
    }
    k
}

/// Finds the `>` that closes a notation: the first one at or after `from`.
fn find_close(cs: &Vec<char>, from: usize) -> (j: usize)
    requires
        from <= cs@.len(),
    ensures
        j as int == close_index(cs@, from as int),
{
    let mut k = from;
    while k < cs.len()
        invariant
            from <= k <= cs@.len(),
            close_index(cs@, from as int) == close_index(cs@, k as int),
        decreases cs.len() - k,
    {
        if cs[k] == '>' {
            return k;
        }
        k = k + 1;
    }
    k
}

/// The view of a tool outcome that holds bytes on success: the bytes are the
/// UTF-8 encoding of the expanded characters.
pub open spec fn bytes_match(r: Result<Vec<u8>, ToolResult>, e: Result<Seq<char>, Seq<char>>) -> bool {
    match (r, e) {
        (Ok(bytes), Ok(text)) => bytes@ == encode_utf8(text),
        (Err(t), Err(msg)) => t.content@ == msg && t.is_error,
        _ => false,
    }
}

/// Parses the input notation into the bytes to send, or gives `None` where a
/// notation's modifier scan gets stuck.
pub fn try_parse_input(input: &str) -> (r: Option<Result<Vec<u8>, ToolResult>>)
    ensures
        r is None <==> input_aborts(input@),
        r matches Some(x) ==> bytes_match(x, expand(input@)),
{
    let cs = chars_of(input);
    let ghost s = cs@;
    let mut out = String::new();
    let mut i: usize = 0;
    while i < cs.len()
        invariant
            cs@ == input@,
            s == cs@,
            i <= cs@.len(),
            expand(s) == prefixed(out@, expand_from(s, i as int)),
            input_aborts(s) == expand_aborts_from(s, i as int),
        decreases cs.len() - i,
    {
        if cs[i] != '<' {
            proof {
                lemma_prefixed_twice(out@, seq![s[i as int]], expand_from(s, i + 1));
            }
            let ghost before = out@;
            push_char(&mut out, cs[i]);
            assert(out@ =~= before + seq![s[i as int]]);
            i = i + 1;
        } else if i + 1 < cs.len() && cs[i + 1] == '<' {
            let j = find_literal_end(&cs, i + 2);
            proof {
                lemma_literal_end_bounds(s, i + 2);
            }
            if j >= cs.len() {
                return Some(Err(tool_error(String::from_str("Error: Unclosed escape sequence <<...>>"))));
            }
            let ghost piece = seq!['<'] + s.subrange(i + 2, j as int) + seq!['>'];
            proof {
                lemma_prefixed_twice(out@, piece, expand_from(s, j + 2));
            }
            let literal = string_of_range(&cs, i + 2, j);
            let ghost before = out@;
            push_char(&mut out, '<');
            out.append(literal.as_str());
            push_char(&mut out, '>');
            assert(out@ =~= before + piece);
            i = j + 2;
        } else {
            let j = find_close(&cs, i + 1);
            proof {
                lemma_close_index_bounds(s, i + 1);
            }
            if j >= cs.len() {
                return Some(Err(tool_error(String::from_str("Error: Unclosed notation <...>"))));
            }
            let content = string_of_range(&cs, i + 1, j);
            match try_parse_bracket_notation(content.as_str()) {
                None => {
                    return None;
                },
                Some(Err(e)) => {
                    return Some(Err(e));
                },
                Some(Ok(keys)) => {
                    proof {
                        lemma_prefixed_twice(out@, keys@, expand_from(s, j + 1));
                    }
                    assert(content@ == s.subrange(i + 1, j as int));
                    out.append(keys.as_str());
                    i = j + 1;
                },
            }
        }
    }
    assert(expand_from(s, i as int) == Ok::<Seq<char>, Seq<char>>(Seq::empty()));
    assert(out@ + Seq::<char>::empty() =~= out@);
    Some(Ok(out.as_str().as_bytes_vec()))
}

/// Parses the unified input notation into the bytes to send to the terminal:
/// normal text as it stands (UTF-8 encoded), `<...>` notations as the keys they
/// name, and `<<text>>` as the literal `<text>`.
pub fn parse_input(input: &str) -> (r: Result<Vec<u8>, ToolResult>)
    requires
        !input_aborts(input@),
    ensures
        bytes_match(r, expand(input@)),
{
    match try_parse_input(input) {
        Some(r) => r,
        None => {
            proof {
                assert(false);
            }
            Err(tool_error(String::new()))
        },
    }
}

/// A character that ends a CSI escape sequence: an ASCII letter or one of `` @`{|}~ ``.
pub open spec fn is_csi_final(c: char) -> bool {
    ('a' <= c && c <= 'z') || ('A' <= c && c <= 'Z') || c == '@' || c == '`' || c == '{' || c == '|'
        || c == '}' || c == '~'
}

/// The first `k >= from` where `s[k]` ends a CSI sequence, or the length of `s`.
pub open spec fn csi_end(s: Seq<char>, from: int) -> int
    decreases s.len() - from,
{
    if from >= s.len() {
        s.len() as int
    } else if is_csi_final(s[from]) {
        from
    } else {
        csi_end(s, from + 1)
    }
}

pub proof fn lemma_csi_end_bounds(s: Seq<char>, from: int)
    requires
        0 <= from,
    ensures
        from <= csi_end(s, from) || csi_end(s, from) == s.len(),
        csi_end(s, from) <= s.len(),
    decreases s.len() - from,
{
    if from < s.len() && !is_csi_final(s[from]) {
        lemma_csi_end_bounds(s, from + 1);
    }
}

/// `s[i..]` without its ANSI escapes: `ESC [ ...` up to and including the
/// character that ends it is dropped (all the rest when none does), and an ESC
/// that no `[` follows is dropped alone.
pub open spec fn strip_ansi_from(s: Seq<char>, i: int) -> Seq<char>
    decreases s.len() - i,
{
    if i < 0 || i >= s.len() {
        Seq::empty()
    } else if s[i] == '\x1b' {
        if i + 1 < s.len() && s[i + 1] == '[' {
            let k = csi_end(s, i + 2);
            proof {
                lemma_csi_end_bounds(s, i + 2);
            }
            if k >= s.len() {
                Seq::empty()
            } else {
                strip_ansi_from(s, k + 1)
            }
        } else {
            strip_ansi_from(s, i + 1)
        }
    } else {
        seq![s[i]] + strip_ansi_from(s, i + 1)
    }
}

/// `s` without its ANSI escape sequences.
pub open spec fn strip_ansi(s: Seq<char>) -> Seq<char> {
    strip_ansi_from(s, 0)
}

proof fn lemma_strip_plain_from(s: Seq<char>, i: int)
    requires
        0 <= i <= s.len(),
        forall|k: int| i <= k < s.len() ==> s[k] != '\x1b',
    ensures
        strip_ansi_from(s, i) =~= s.subrange(i, s.len() as int),
    decreases s.len() - i,
{
    if i < s.len() {
        lemma_strip_plain_from(s, i + 1);
    }
}

proof fn lemma_strip_leaves_no_escape(s: Seq<char>, i: int)
    requires
        0 <= i,
    ensures
        forall|k: int| 0 <= k < strip_ansi_from(s, i).len() ==> strip_ansi_from(s, i)[k] != '\x1b',
    decreases s.len() - i,
{
    if i < s.len() {
        if s[i] == '\x1b' {
            if i + 1 < s.len() && s[i + 1] == '[' {
                lemma_csi_end_bounds(s, i + 2);
                let k = csi_end(s, i + 2);
                if k < s.len() {
                    lemma_strip_leaves_no_escape(s, k + 1);
                    assert(strip_ansi_from(s, i) == strip_ansi_from(s, k + 1));
                } else {
                    assert(strip_ansi_from(s, i) == Seq::<char>::empty());
                }
            } else {
                lemma_strip_leaves_no_escape(s, i + 1);
                assert(strip_ansi_from(s, i) == strip_ansi_from(s, i + 1));
            }
        } else {
            lemma_strip_leaves_no_escape(s, i + 1);
            let r = strip_ansi_from(s, i);
            let rest = strip_ansi_from(s, i + 1);
            assert(r == seq![s[i]] + rest);
            assert forall|k: int| 0 <= k < r.len() implies r[k] != '\x1b' by {
                if k > 0 {
                    assert(r[k] == rest[k - 1]);
                }
            }
        }
    }
}

/// Text without an escape character comes out of stripping unchanged, and
/// stripping what was stripped changes nothing more.
pub proof fn law_stripping_is_idempotent(s: Seq<char>)
    ensures
        (forall|k: int| 0 <= k < s.len() ==> s[k] != '\x1b') ==> strip_ansi(s) == s,
        strip_ansi(strip_ansi(s)) == strip_ansi(s),
{
    if forall|k: int| 0 <= k < s.len() ==> s[k] != '\x1b' {
        lemma_strip_plain_from(s, 0);
        assert(s.subrange(0, s.len() as int) =~= s);
    }
    let t = strip_ansi(s);
    lemma_strip_leaves_no_escape(s, 0);
    lemma_strip_plain_from(t, 0);
    assert(t.subrange(0, t.len() as int) =~= t);
}

/// Whether `r` is a subsequence of `t`: its characters appear in `t` in
/// the same order, possibly with others between them.
pub open spec fn is_subsequence(r: Seq<char>, t: Seq<char>) -> bool
    decreases t.len(),
{
    if r.len() == 0 {
        true
    } else if t.len() == 0 {
        false
    } else if r[0] == t[0] && is_subsequence(r.drop_first(), t.drop_first()) {
        true
    } else {
        is_subsequence(r, t.drop_first())
    }
}

proof fn lemma_subsequence_len(r: Seq<char>, t: Seq<char>)
    requires
        is_subsequence(r, t),
    ensures
        r.len() <= t.len(),
    decreases t.len(),
{
    if r.len() > 0 {
        if r[0] == t[0] && is_subsequence(r.drop_first(), t.drop_first()) {
            lemma_subsequence_len(r.drop_first(), t.drop_first());
        } else {
            lemma_subsequence_len(r, t.drop_first());
        }
    }
}

proof fn lemma_subsequence_skip(r: Seq<char>, s: Seq<char>, i: int, k: int)
    requires
        0 <= i <= k <= s.len(),
        is_subsequence(r, s.subrange(k, s.len() as int)),
    ensures
        is_subsequence(r, s.subrange(i, s.len() as int)),
    decreases k - i,
{
    if i < k {
        lemma_subsequence_skip(r, s, i + 1, k);
        assert(s.subrange(i, s.len() as int).drop_first() =~= s.subrange(i + 1, s.len() as int));
    }
}

proof fn lemma_strip_subsequence_from(s: Seq<char>, i: int)
    requires
        0 <= i <= s.len(),
    ensures
        is_subsequence(strip_ansi_from(s, i), s.subrange(i, s.len() as int)),
    decreases s.len() - i,
{
    let t = s.subrange(i, s.len() as int);
    if i < s.len() {
        if s[i] == '\x1b' {
            if i + 1 < s.len() && s[i + 1] == '[' {
                lemma_csi_end_bounds(s, i + 2);
                let k = csi_end(s, i + 2);
                if k < s.len() {
                    lemma_strip_subsequence_from(s, k + 1);
                    lemma_subsequence_skip(strip_ansi_from(s, i), s, i, k + 1);
                }
            } else {
                lemma_strip_subsequence_from(s, i + 1);
                lemma_subsequence_skip(strip_ansi_from(s, i), s, i, i + 1);
            }
        } else {
            lemma_strip_subsequence_from(s, i + 1);
            let r = strip_ansi_from(s, i);
            assert(r.drop_first() =~= strip_ansi_from(s, i + 1));
            assert(t.drop_first() =~= s.subrange(i + 1, s.len() as int));
            assert(r[0] == t[0]);
        }
    }
}

/// What stripping leaves: no escape character, and a subsequence of the
/// text (the kept characters in their order), so never longer than it.
pub proof fn law_stripped_text(s: Seq<char>)
    ensures
        forall|k: int| 0 <= k < strip_ansi(s).len() ==> strip_ansi(s)[k] != '\x1b',
        is_subsequence(strip_ansi(s), s),
        strip_ansi(s).len() <= s.len(),
{
    lemma_strip_leaves_no_escape(s, 0);
    lemma_strip_subsequence_from(s, 0);
    assert(s.subrange(0, s.len() as int) =~= s);
    lemma_subsequence_len(strip_ansi(s), s);
}

proof fn lemma_csi_end_at(s: Seq<char>, from: int, stop: int)
    requires
        0 <= from <= stop < s.len(),
        is_csi_final(s[stop]),
        forall|k: int| from <= k < stop ==> !is_csi_final(s[k]),
    ensures
        csi_end(s, from) == stop,
    decreases stop - from,
{
    if from < stop {
        lemma_csi_end_at(s, from + 1, stop);
    }
}

/// A CSI sequence, `ESC [` with numeric parameters (digits and `;`) and a
/// final byte that is any ASCII letter or one of `` @`{|}~ ``, is removed
/// whole, and the text after it is kept: stripping `ESC [ params L t` gives
/// `t` for text `t` without escapes. So `ESC [ K done` gives `done`, and
/// `ESC [ 1 ; 3 1 m x` gives `x`.
pub proof fn law_csi_sequences_are_removed(params: Seq<char>, letter: char, t: Seq<char>)
    requires
        forall|k: int| 0 <= k < params.len() ==> ('0' <= #[trigger] params[k] <= '9' || params[k] == ';'),
        ('a' <= letter <= 'z') || ('A' <= letter <= 'Z') || letter == '@' || letter == '`' || letter == '{' || letter
            == '|' || letter == '}' || letter == '~',
        forall|k: int| 0 <= k < t.len() ==> t[k] != '\x1b',
    ensures
        strip_ansi(seq!['\x1b', '['] + params + seq![letter] + t) == t,
{
    let s = seq!['\x1b', '['] + params + seq![letter] + t;
    let stop: int = params.len() as int + 2;
    assert(s[0] == '\x1b' && s[1] == '[');
    assert(s[stop] == letter);
    assert forall|k: int| 2 <= k < stop implies !is_csi_final(s[k]) by {
        assert(s[k] == params[k - 2]);
    }
    lemma_csi_end_at(s, 2, stop);
    assert forall|k: int| stop + 1 <= k < s.len() implies s[k] != '\x1b' by {
        assert(s[k] == t[k - stop - 1]);
    }
    lemma_strip_plain_from(s, stop + 1);
    assert(s.subrange(stop + 1, s.len() as int) =~= t);
}

/// Strips ANSI escape sequences (`ESC [ ... final`) from text.
pub fn strip_ansi_codes(text: &str) -> (r: String)
    ensures
        r@ == strip_ansi(text@),
{
    let cs = chars_of(text);
    let ghost s = cs@;
    let mut result = String::new();
    let mut i: usize = 0;
    while i < cs.len()
        invariant
            s == cs@,
            cs@ == text@,
            i <= cs@.len(),
            strip_ansi(s) == result@ + strip_ansi_from(s, i as int),
        decreases cs.len() - i,
    {
        if cs[i] == '\x1b' {
            if i + 1 < cs.len() && cs[i + 1] == '[' {
                let mut k = i + 2;
                while k < cs.len() && !is_csi_final_char(cs[k])
                    invariant
                        i + 2 <= k <= cs@.len(),
                        csi_end(s, i + 2) == csi_end(s, k as int),
                        s == cs@,
                    decreases cs.len() - k,
                {
                    k = k + 1;
                }
                proof {
                    lemma_csi_end_bounds(s, i + 2);
                }
                if k < cs.len() {
                    i = k + 1;
                } else {
                    i = k;
                }
            } else {
                i = i + 1;
            }
        } else {
            let ghost before = result@;
            push_char(&mut result, cs[i]);
            assert(result@ + strip_ansi_from(s, i + 1) =~= before + strip_ansi_from(s, i as int));
            i = i + 1;
        }
    }
    assert(result@ + Seq::<char>::empty() =~= result@);
    result
}

fn is_csi_final_char(c: char) -> (b: bool)
    ensures
        b == is_csi_final(c),
{
    ('a' <= c && c <= 'z') || ('A' <= c && c <= 'Z') || c == '@' || c == '`' || c == '{' || c == '|'
        || c == '}' || c == '~'
}

} // verus!
