//! The `terminal_send` tool: named special keys with modifier lists.
use vstd::prelude::*;

use crate::text::{chars_of, equals};
use crate::tools::{tool_error, ToolResult};
use crate::tools::terminal::string_outcome;
use crate::json::{field, member, str_field, str_of, Json};
use crate::text::{join3, string_views};
use vstd::utf8::encode_utf8;
use crate::tools::operations::{
    choice_list_property, choice_property, describes, has_schema, has_shape, lemma_schema_described, property, schema,
    tool_definition, PropertyShape,
};
use crate::types::ToolDefinition;

verus! {

/// The xterm modifier number: 2 Shift, 3 Alt, 4 Alt+Shift, 5 Ctrl, 6 Ctrl+Shift,
/// 7 Ctrl+Alt, 8 Ctrl+Alt+Shift; 0 stands for no modifier.
pub open spec fn csi_modifier(ctrl: bool, alt: bool, shift: bool) -> int {
    if !ctrl && !alt && !shift {
        0
    } else {
        1 + (if shift { 1int } else { 0int }) + (if alt { 2int } else { 0int }) + (if ctrl { 4int } else { 0int })
    }
}

/// The decimal digit of a modifier number below ten.
pub open spec fn digit(n: int) -> char {
    (n + 48) as char
}

/// `ESC [ final` without modifiers; with modifiers `ESC [ 1 ; m final`, or
/// `ESC [ prefix ; m ~` for a final part `prefix~`.
pub open spec fn csi_sequence(final_byte: Seq<char>, ctrl: bool, alt: bool, shift: bool) -> Seq<char> {
    let m = csi_modifier(ctrl, alt, shift);
    if m == 0 {
        "\x1b["@ + final_byte
    } else if final_byte.len() > 0 && final_byte.last() == '~' {
        "\x1b["@ + final_byte.drop_last() + seq![';', digit(m), '~']
    } else {
        "\x1b["@ + seq!['1', ';', digit(m)] + final_byte
    }
}

/// Whether the modifier list names `name`.
pub open spec fn names(modifiers: Seq<String>, name: Seq<char>) -> bool {
    exists|i: int| 0 <= i < modifiers.len() && #[trigger] modifiers[i]@ == name
}

/// The sequence of a special key with the modifiers held, or `None` for an unknown key.
pub open spec fn special_key(key: Seq<char>, ctrl: bool, alt: bool, shift: bool) -> Option<Seq<char>> {
    if key == "enter"@ {
        Some(if ctrl { "\n"@ } else { "\r"@ })
    } else if key == "tab"@ {
        Some(if shift { "\x1b[Z"@ } else { "\t"@ })
    } else if key == "escape"@ {
        Some("\x1b"@)
    } else if key == "backspace"@ {
        Some("\x7f"@)
    } else if key == "up"@ {
        Some(csi_sequence("A"@, ctrl, alt, shift))
    } else if key == "down"@ {
        Some(csi_sequence("B"@, ctrl, alt, shift))
    } else if key == "right"@ {
        Some(csi_sequence("C"@, ctrl, alt, shift))
    } else if key == "left"@ {
        Some(csi_sequence("D"@, ctrl, alt, shift))
    } else if key == "home"@ {
        Some(csi_sequence("H"@, ctrl, alt, shift))
    } else if key == "end"@ {
        Some(csi_sequence("F"@, ctrl, alt, shift))
    } else if key == "page_up"@ {
        Some(csi_sequence("5~"@, ctrl, alt, shift))
    } else if key == "page_down"@ {
        Some(csi_sequence("6~"@, ctrl, alt, shift))
    } else if key == "f1"@ {
        Some(csi_sequence("P"@, ctrl, alt, shift))
    } else if key == "f2"@ {
        Some(csi_sequence("Q"@, ctrl, alt, shift))
    } else if key == "f3"@ {
        Some(csi_sequence("R"@, ctrl, alt, shift))
    } else if key == "f4"@ {
        Some(csi_sequence("S"@, ctrl, alt, shift))
    } else if key == "f5"@ {
        Some("\x1b[15~"@)
    } else if key == "f6"@ {
        Some("\x1b[17~"@)
    } else if key == "f7"@ {
        Some("\x1b[18~"@)
    } else if key == "f8"@ {
        Some("\x1b[19~"@)
    } else if key == "f9"@ {
        Some("\x1b[20~"@)
    } else if key == "f10"@ {
        Some("\x1b[21~"@)
    } else if key == "f11"@ {
        Some("\x1b[23~"@)
    } else if key == "f12"@ {
        Some("\x1b[24~"@)
    } else {
        None
    }
}

/// The answer of `build_vt_sequence`: the sequence, or the unknown-key error.
pub open spec fn vt_sequence(key: Seq<char>, modifiers: Seq<String>) -> Result<Seq<char>, Seq<char>> {
    match special_key(key, names(modifiers, "ctrl"@), names(modifiers, "alt"@), names(modifiers, "shift"@)) {
        Some(s) => Ok(s),
        None => Err("Error: Unknown special key \'"@ + key + "\'"@),
    }
}

/// Every special key sends its own sequence. Enter sends `CR` (`LF` with
/// Ctrl), Tab `HT` (`ESC [ Z` with Shift), Escape `ESC`, Backspace 0x7f. The
/// arrows send `ESC [ A` (up), `ESC [ B` (down), `ESC [ C` (right), `ESC [ D`
/// (left), Home `ESC [ H`, End `ESC [ F` and F1 to F4 `ESC [ P` to `ESC [ S`;
/// with modifiers they become `ESC [ 1 ; m X`, where `m` is 1 plus 1 for
/// Shift, 2 for Alt and 4 for Ctrl. Page Up and Page Down send `ESC [ 5 ~`
/// and `ESC [ 6 ~`, or `ESC [ 5 ; m ~` and `ESC [ 6 ; m ~` with modifiers.
/// F5 to F12 send `ESC [ 15 ~` to `ESC [ 24 ~`.
#[verifier::rlimit(100)]
pub proof fn law_special_keys(key: Seq<char>, modifiers: Seq<String>)
    ensures
        ({
            let ctrl = names(modifiers, "ctrl"@);
            let alt = names(modifiers, "alt"@);
            let shift = names(modifiers, "shift"@);
            let plain = !ctrl && !alt && !shift;
            let d = (48 + 1 + (if shift { 1int } else { 0 }) + (if alt { 2int } else { 0 }) + (if ctrl { 4int } else { 0 })) as char;
            &&& key == "enter"@ ==> vt_sequence(key, modifiers) == Ok::<Seq<char>, Seq<char>>(if ctrl { "\n"@ } else { "\r"@ })
            &&& key == "tab"@ ==> vt_sequence(key, modifiers) == Ok::<Seq<char>, Seq<char>>(if shift { "\x1b[Z"@ } else { "\t"@ })
            &&& key == "escape"@ ==> vt_sequence(key, modifiers) == Ok::<Seq<char>, Seq<char>>("\x1b"@)
            &&& key == "backspace"@ ==> vt_sequence(key, modifiers) == Ok::<Seq<char>, Seq<char>>("\x7f"@)
            &&& key == "up"@ ==> vt_sequence(key, modifiers) == Ok::<Seq<char>, Seq<char>>(if plain { seq!['\x1b', '[', 'A'] } else { seq!['\x1b', '[', '1', ';', d, 'A'] })
            &&& key == "down"@ ==> vt_sequence(key, modifiers) == Ok::<Seq<char>, Seq<char>>(if plain { seq!['\x1b', '[', 'B'] } else { seq!['\x1b', '[', '1', ';', d, 'B'] })
            &&& key == "right"@ ==> vt_sequence(key, modifiers) == Ok::<Seq<char>, Seq<char>>(if plain { seq!['\x1b', '[', 'C'] } else { seq!['\x1b', '[', '1', ';', d, 'C'] })
            &&& key == "left"@ ==> vt_sequence(key, modifiers) == Ok::<Seq<char>, Seq<char>>(if plain { seq!['\x1b', '[', 'D'] } else { seq!['\x1b', '[', '1', ';', d, 'D'] })
            &&& key == "home"@ ==> vt_sequence(key, modifiers) == Ok::<Seq<char>, Seq<char>>(if plain { seq!['\x1b', '[', 'H'] } else { seq!['\x1b', '[', '1', ';', d, 'H'] })
            &&& key == "end"@ ==> vt_sequence(key, modifiers) == Ok::<Seq<char>, Seq<char>>(if plain { seq!['\x1b', '[', 'F'] } else { seq!['\x1b', '[', '1', ';', d, 'F'] })
            &&& key == "f1"@ ==> vt_sequence(key, modifiers) == Ok::<Seq<char>, Seq<char>>(if plain { seq!['\x1b', '[', 'P'] } else { seq!['\x1b', '[', '1', ';', d, 'P'] })
            &&& key == "f2"@ ==> vt_sequence(key, modifiers) == Ok::<Seq<char>, Seq<char>>(if plain { seq!['\x1b', '[', 'Q'] } else { seq!['\x1b', '[', '1', ';', d, 'Q'] })
            &&& key == "f3"@ ==> vt_sequence(key, modifiers) == Ok::<Seq<char>, Seq<char>>(if plain { seq!['\x1b', '[', 'R'] } else { seq!['\x1b', '[', '1', ';', d, 'R'] })
            &&& key == "f4"@ ==> vt_sequence(key, modifiers) == Ok::<Seq<char>, Seq<char>>(if plain { seq!['\x1b', '[', 'S'] } else { seq!['\x1b', '[', '1', ';', d, 'S'] })
            &&& key == "page_up"@ ==> vt_sequence(key, modifiers) == Ok::<Seq<char>, Seq<char>>(if plain { seq!['\x1b', '[', '5', '~'] } else { seq!['\x1b', '[', '5', ';', d, '~'] })
            &&& key == "page_down"@ ==> vt_sequence(key, modifiers) == Ok::<Seq<char>, Seq<char>>(if plain { seq!['\x1b', '[', '6', '~'] } else { seq!['\x1b', '[', '6', ';', d, '~'] })
            &&& key == "f5"@ ==> vt_sequence(key, modifiers) == Ok::<Seq<char>, Seq<char>>("\x1b[15~"@)
            &&& key == "f6"@ ==> vt_sequence(key, modifiers) == Ok::<Seq<char>, Seq<char>>("\x1b[17~"@)
            &&& key == "f7"@ ==> vt_sequence(key, modifiers) == Ok::<Seq<char>, Seq<char>>("\x1b[18~"@)
            &&& key == "f8"@ ==> vt_sequence(key, modifiers) == Ok::<Seq<char>, Seq<char>>("\x1b[19~"@)
            &&& key == "f9"@ ==> vt_sequence(key, modifiers) == Ok::<Seq<char>, Seq<char>>("\x1b[20~"@)
            &&& key == "f10"@ ==> vt_sequence(key, modifiers) == Ok::<Seq<char>, Seq<char>>("\x1b[21~"@)
            &&& key == "f11"@ ==> vt_sequence(key, modifiers) == Ok::<Seq<char>, Seq<char>>("\x1b[23~"@)
            &&& key == "f12"@ ==> vt_sequence(key, modifiers) == Ok::<Seq<char>, Seq<char>>("\x1b[24~"@)
        }),
{
    reveal_strlit("enter");
    reveal_strlit("tab");
    reveal_strlit("escape");
    reveal_strlit("backspace");
    reveal_strlit("up");
    reveal_strlit("down");
    reveal_strlit("right");
    reveal_strlit("left");
    reveal_strlit("home");
    reveal_strlit("end");
    reveal_strlit("page_up");
    reveal_strlit("page_down");
    reveal_strlit("f1");
    reveal_strlit("f2");
    reveal_strlit("f3");
    reveal_strlit("f4");
    reveal_strlit("f5");
    reveal_strlit("f6");
    reveal_strlit("f7");
    reveal_strlit("f8");
    reveal_strlit("f9");
    reveal_strlit("f10");
    reveal_strlit("f11");
    reveal_strlit("f12");
    reveal_strlit("\x1b[");
    reveal_strlit("A");
    reveal_strlit("B");
    reveal_strlit("C");
    reveal_strlit("D");
    reveal_strlit("H");
    reveal_strlit("F");
    assert("enter"@.len() == 5);
    assert("tab"@.len() == 3);
    assert("escape"@.len() == 6);
    assert("backspace"@.len() == 9);
    assert("up"@.len() == 2);
    assert("down"@.len() == 4);
    assert("right"@.len() == 5);
    assert("left"@.len() == 4);
    assert("home"@.len() == 4);
    assert("end"@.len() == 3);
    assert("page_up"@.len() == 7);
    assert("page_down"@.len() == 9);
    assert("f1"@.len() == 2);
    assert("f2"@.len() == 2);
    assert("f3"@.len() == 2);
    assert("f4"@.len() == 2);
    assert("f5"@.len() == 2);
    assert("f6"@.len() == 2);
    assert("f7"@.len() == 2);
    assert("f8"@.len() == 2);
    assert("f9"@.len() == 2);
    assert("f10"@.len() == 3);
    assert("f11"@.len() == 3);
    assert("f12"@.len() == 3);
    reveal_strlit("P");
    reveal_strlit("Q");
    reveal_strlit("R");
    reveal_strlit("S");
    reveal_strlit("5~");
    reveal_strlit("6~");
    assert("enter"@[0] != "right"@[0]);
    assert("tab"@[0] != "end"@[0]);
    assert("tab"@[0] != "f10"@[0]);
    assert("tab"@[0] != "f11"@[0]);
    assert("tab"@[0] != "f12"@[0]);
    assert("backspace"@[0] != "page_down"@[0]);
    assert("up"@[0] != "f1"@[0]);
    assert("up"@[0] != "f2"@[0]);
    assert("up"@[0] != "f3"@[0]);
    assert("up"@[0] != "f4"@[0]);
    assert("up"@[0] != "f5"@[0]);
    assert("up"@[0] != "f6"@[0]);
    assert("up"@[0] != "f7"@[0]);
    assert("up"@[0] != "f8"@[0]);
    assert("up"@[0] != "f9"@[0]);
    assert("down"@[0] != "left"@[0]);
    assert("down"@[0] != "home"@[0]);
    assert("left"@[0] != "home"@[0]);
    assert("end"@[0] != "f10"@[0]);
    assert("end"@[0] != "f11"@[0]);
    assert("end"@[0] != "f12"@[0]);
    assert("f1"@[1] != "f2"@[1]);
    assert("f1"@[1] != "f3"@[1]);
    assert("f1"@[1] != "f4"@[1]);
    assert("f1"@[1] != "f5"@[1]);
    assert("f1"@[1] != "f6"@[1]);
    assert("f1"@[1] != "f7"@[1]);
    assert("f1"@[1] != "f8"@[1]);
    assert("f1"@[1] != "f9"@[1]);
    assert("f2"@[1] != "f3"@[1]);
    assert("f2"@[1] != "f4"@[1]);
    assert("f2"@[1] != "f5"@[1]);
    assert("f2"@[1] != "f6"@[1]);
    assert("f2"@[1] != "f7"@[1]);
    assert("f2"@[1] != "f8"@[1]);
    assert("f2"@[1] != "f9"@[1]);
    assert("f3"@[1] != "f4"@[1]);
    assert("f3"@[1] != "f5"@[1]);
    assert("f3"@[1] != "f6"@[1]);
    assert("f3"@[1] != "f7"@[1]);
    assert("f3"@[1] != "f8"@[1]);
    assert("f3"@[1] != "f9"@[1]);
    assert("f4"@[1] != "f5"@[1]);
    assert("f4"@[1] != "f6"@[1]);
    assert("f4"@[1] != "f7"@[1]);
    assert("f4"@[1] != "f8"@[1]);
    assert("f4"@[1] != "f9"@[1]);
    assert("f5"@[1] != "f6"@[1]);
    assert("f5"@[1] != "f7"@[1]);
    assert("f5"@[1] != "f8"@[1]);
    assert("f5"@[1] != "f9"@[1]);
    assert("f6"@[1] != "f7"@[1]);
    assert("f6"@[1] != "f8"@[1]);
    assert("f6"@[1] != "f9"@[1]);
    assert("f7"@[1] != "f8"@[1]);
    assert("f7"@[1] != "f9"@[1]);
    assert("f8"@[1] != "f9"@[1]);
    assert("f10"@[2] != "f11"@[2]);
    assert("f10"@[2] != "f12"@[2]);
    assert("f11"@[2] != "f12"@[2]);
    let ctrl = names(modifiers, "ctrl"@);
    let alt = names(modifiers, "alt"@);
    let shift = names(modifiers, "shift"@);
    let plain = !ctrl && !alt && !shift;
    let d = (48 + 1 + (if shift { 1int } else { 0 }) + (if alt { 2int } else { 0 }) + (if ctrl { 4int } else { 0 })) as char;
    assert(!plain ==> digit(csi_modifier(ctrl, alt, shift)) == d);
    if key == "up"@ {
        assert(special_key(key, ctrl, alt, shift) == Some(csi_sequence("A"@, ctrl, alt, shift)));
        assert(csi_sequence("A"@, ctrl, alt, shift) =~= (if plain { seq!['\x1b', '[', 'A'] } else { seq!['\x1b', '[', '1', ';', d, 'A'] }));
    }
    if key == "down"@ {
        assert(special_key(key, ctrl, alt, shift) == Some(csi_sequence("B"@, ctrl, alt, shift)));
        assert(csi_sequence("B"@, ctrl, alt, shift) =~= (if plain { seq!['\x1b', '[', 'B'] } else { seq!['\x1b', '[', '1', ';', d, 'B'] }));
    }
    if key == "right"@ {
        assert(special_key(key, ctrl, alt, shift) == Some(csi_sequence("C"@, ctrl, alt, shift)));
        assert(csi_sequence("C"@, ctrl, alt, shift) =~= (if plain { seq!['\x1b', '[', 'C'] } else { seq!['\x1b', '[', '1', ';', d, 'C'] }));
    }
    if key == "left"@ {
        assert(special_key(key, ctrl, alt, shift) == Some(csi_sequence("D"@, ctrl, alt, shift)));
        assert(csi_sequence("D"@, ctrl, alt, shift) =~= (if plain { seq!['\x1b', '[', 'D'] } else { seq!['\x1b', '[', '1', ';', d, 'D'] }));
    }
    if key == "home"@ {
        assert(special_key(key, ctrl, alt, shift) == Some(csi_sequence("H"@, ctrl, alt, shift)));
        assert(csi_sequence("H"@, ctrl, alt, shift) =~= (if plain { seq!['\x1b', '[', 'H'] } else { seq!['\x1b', '[', '1', ';', d, 'H'] }));
    }
    if key == "end"@ {
        assert(special_key(key, ctrl, alt, shift) == Some(csi_sequence("F"@, ctrl, alt, shift)));
        assert(csi_sequence("F"@, ctrl, alt, shift) =~= (if plain { seq!['\x1b', '[', 'F'] } else { seq!['\x1b', '[', '1', ';', d, 'F'] }));
    }
    if key == "f1"@ {
        assert(special_key(key, ctrl, alt, shift) == Some(csi_sequence("P"@, ctrl, alt, shift)));
        assert(csi_sequence("P"@, ctrl, alt, shift) =~= (if plain { seq!['\x1b', '[', 'P'] } else { seq!['\x1b', '[', '1', ';', d, 'P'] }));
    }
    if key == "f2"@ {
        assert(special_key(key, ctrl, alt, shift) == Some(csi_sequence("Q"@, ctrl, alt, shift)));
        assert(csi_sequence("Q"@, ctrl, alt, shift) =~= (if plain { seq!['\x1b', '[', 'Q'] } else { seq!['\x1b', '[', '1', ';', d, 'Q'] }));
    }
    if key == "f3"@ {
        assert(special_key(key, ctrl, alt, shift) == Some(csi_sequence("R"@, ctrl, alt, shift)));
        assert(csi_sequence("R"@, ctrl, alt, shift) =~= (if plain { seq!['\x1b', '[', 'R'] } else { seq!['\x1b', '[', '1', ';', d, 'R'] }));
    }
    if key == "f4"@ {
        assert(special_key(key, ctrl, alt, shift) == Some(csi_sequence("S"@, ctrl, alt, shift)));
        assert(csi_sequence("S"@, ctrl, alt, shift) =~= (if plain { seq!['\x1b', '[', 'S'] } else { seq!['\x1b', '[', '1', ';', d, 'S'] }));
    }
    if key == "page_up"@ {
        assert(special_key(key, ctrl, alt, shift) == Some(csi_sequence("5~"@, ctrl, alt, shift)));
        assert(csi_sequence("5~"@, ctrl, alt, shift) =~= (if plain { seq!['\x1b', '[', '5', '~'] } else { seq!['\x1b', '[', '5', ';', d, '~'] }));
    }
    if key == "page_down"@ {
        assert(special_key(key, ctrl, alt, shift) == Some(csi_sequence("6~"@, ctrl, alt, shift)));
        assert(csi_sequence("6~"@, ctrl, alt, shift) =~= (if plain { seq!['\x1b', '[', '6', '~'] } else { seq!['\x1b', '[', '6', ';', d, '~'] }));
    }
    if key == "enter"@ {
        assert(special_key(key, ctrl, alt, shift) is Some);
    }
    if key == "tab"@ {
        assert(special_key(key, ctrl, alt, shift) is Some);
    }
    if key == "escape"@ {
        assert(special_key(key, ctrl, alt, shift) is Some);
    }
    if key == "backspace"@ {
        assert(special_key(key, ctrl, alt, shift) is Some);
    }
    if key == "f5"@ {
        assert(special_key(key, ctrl, alt, shift) is Some);
    }
    if key == "f6"@ {
        assert(special_key(key, ctrl, alt, shift) is Some);
    }
    if key == "f7"@ {
        assert(special_key(key, ctrl, alt, shift) is Some);
    }
    if key == "f8"@ {
        assert(special_key(key, ctrl, alt, shift) is Some);
    }
    if key == "f9"@ {
        assert(special_key(key, ctrl, alt, shift) is Some);
    }
    if key == "f10"@ {
        assert(special_key(key, ctrl, alt, shift) is Some);
    }
    if key == "f11"@ {
        assert(special_key(key, ctrl, alt, shift) is Some);
    }
    if key == "f12"@ {
        assert(special_key(key, ctrl, alt, shift) is Some);
    }
}

/// Builds a CSI (Control Sequence Introducer) sequence with modifier support.
/// Format: `ESC [ <final_byte>`, or `ESC [ 1 ; <modifier> <final_byte>`; for keys
/// like `5~` the modifier goes before the `~`: `ESC [ 5 ; <modifier> ~`.
pub fn build_csi_sequence(final_byte: &str, ctrl: bool, alt: bool, shift: bool) -> (r: String)
    ensures
        r@ == csi_sequence(final_byte@, ctrl, alt, shift),
{
    let modifier: u32 = if !ctrl && !alt && !shift {
        0
    } else {
        1 + (if shift { 1u32 } else { 0 }) + (if alt { 2u32 } else { 0 }) + (if ctrl { 4u32 } else { 0 })
    };
    let mut result = String::from_str("\x1b[");
    if modifier == 0 {
        result.append(final_byte);
        return result;
    }
    let digit_char = ((modifier + 48) as u8) as char;
    let cs = chars_of(final_byte);
    if cs.len() > 0 && cs[cs.len() - 1] == '~' {
        let prefix = crate::text::string_of_range(&cs, 0, cs.len() - 1);
        assert(prefix@ =~= final_byte@.drop_last());
        result.append(prefix.as_str());
        crate::text::push_char(&mut result, ';');
        crate::text::push_char(&mut result, digit_char);
        crate::text::push_char(&mut result, '~');
        assert(result@ =~= csi_sequence(final_byte@, ctrl, alt, shift));
    } else {
        crate::text::push_char(&mut result, '1');
        crate::text::push_char(&mut result, ';');
        crate::text::push_char(&mut result, digit_char);
        result.append(final_byte);
        assert(result@ =~= csi_sequence(final_byte@, ctrl, alt, shift));
    }
    result
}

/// Whether the modifier list names `name`.
fn has_modifier(modifiers: &[String], name: &str) -> (b: bool)
    ensures
        b == names(modifiers@, name@),
{
    let mut i: usize = 0;
    while i < modifiers.len()
        invariant
            i <= modifiers@.len(),
            forall|m: int| 0 <= m < i ==> #[trigger] modifiers@[m]@ != name@,
        decreases modifiers.len() - i,
    {
        let cs = chars_of(modifiers[i].as_str());
        if equals(&cs, name) {
            return true;
        }
        i = i + 1;
    }
    false
}

/// Builds the sequence that a special key sends with the given modifiers
/// (`ctrl`, `alt`, `shift`), or the error for an unknown key.
pub fn build_vt_sequence(key: &str, modifiers: &[String]) -> (r: Result<String, ToolResult>)
    ensures
        string_outcome(r) == vt_sequence(key@, modifiers@),
        r matches Err(t) ==> t.is_error,
{
    let has_ctrl = has_modifier(modifiers, "ctrl");
    let has_alt = has_modifier(modifiers, "alt");
    let has_shift = has_modifier(modifiers, "shift");
    let k = chars_of(key);
    let sequence = if equals(&k, "enter") {
        if has_ctrl { String::from_str("\n") } else { String::from_str("\r") }
    } else if equals(&k, "tab") {
        if has_shift { String::from_str("\x1b[Z") } else { String::from_str("\t") }
    } else if equals(&k, "escape") {
        String::from_str("\x1b")
    } else if equals(&k, "backspace") {
        String::from_str("\x7f")
    } else if equals(&k, "up") {
        build_csi_sequence("A", has_ctrl, has_alt, has_shift)
    } else if equals(&k, "down") {
        build_csi_sequence("B", has_ctrl, has_alt, has_shift)
    } else if equals(&k, "right") {
        build_csi_sequence("C", has_ctrl, has_alt, has_shift)
    } else if equals(&k, "left") {
        build_csi_sequence("D", has_ctrl, has_alt, has_shift)
    } else if equals(&k, "home") {
        build_csi_sequence("H", has_ctrl, has_alt, has_shift)
    } else if equals(&k, "end") {
        build_csi_sequence("F", has_ctrl, has_alt, has_shift)
    } else if equals(&k, "page_up") {
        build_csi_sequence("5~", has_ctrl, has_alt, has_shift)
    } else if equals(&k, "page_down") {
        build_csi_sequence("6~", has_ctrl, has_alt, has_shift)
    } else if equals(&k, "f1") {
        build_csi_sequence("P", has_ctrl, has_alt, has_shift)
    } else if equals(&k, "f2") {
        build_csi_sequence("Q", has_ctrl, has_alt, has_shift)
    } else if equals(&k, "f3") {
        build_csi_sequence("R", has_ctrl, has_alt, has_shift)
    } else if equals(&k, "f4") {
        build_csi_sequence("S", has_ctrl, has_alt, has_shift)
    } else if equals(&k, "f5") {
        String::from_str("\x1b[15~")
    } else if equals(&k, "f6") {
        String::from_str("\x1b[17~")
    } else if equals(&k, "f7") {
        String::from_str("\x1b[18~")
    } else if equals(&k, "f8") {
        String::from_str("\x1b[19~")
    } else if equals(&k, "f9") {
        String::from_str("\x1b[20~")
    } else if equals(&k, "f10") {
        String::from_str("\x1b[21~")
    } else if equals(&k, "f11") {
        String::from_str("\x1b[23~")
    } else if equals(&k, "f12") {
        String::from_str("\x1b[24~")
    } else {
        let mut m = String::from_str("Error: Unknown special key \'");
        m.append(key);
        m.append("\'");
        return Err(tool_error(m));
    };
    Ok(sequence)
}

/// The description of the terminal_send tool.
pub open spec fn send_tool_description() -> Seq<char> {
    "Send input to an interactive terminal session. Either provide literal text via 'input' or a special key with optional modifiers."@
}

/// The names of the special keys that the terminal_send tool takes.
pub open spec fn special_key_names() -> Seq<Seq<char>> {
    seq![
        "enter"@, "tab"@, "escape"@, "backspace"@, "up"@, "down"@, "left"@, "right"@, "home"@, "end"@,
        "page_up"@, "page_down"@, "f1"@, "f2"@, "f3"@, "f4"@, "f5"@, "f6"@, "f7"@, "f8"@, "f9"@, "f10"@,
        "f11"@, "f12"@,
    ]
}

/// The properties of the terminal_send tool's arguments, in order.
pub open spec fn send_properties() -> Seq<(Seq<char>, PropertyShape)> {
    seq![
        ("name"@, PropertyShape::Plain { ty: "string"@, description: "Name of the terminal session to send input to"@ }),
        ("input"@, PropertyShape::Plain { ty: "string"@, description: "Literal text to send to the terminal"@ }),
        ("special_key"@, PropertyShape::Choice {
            ty: "string"@,
            choices: special_key_names(),
            description: "Special key to send to the terminal"@,
        }),
        ("modifiers"@, PropertyShape::ChoiceList {
            choices: seq!["ctrl"@, "alt"@, "shift"@],
            description: "Modifier keys to apply to the special_key"@,
        }),
    ]
}

/// The definition of the terminal_send tool: its name, what it does, and
/// exactly the schema of its arguments (`send_properties`, of which `name`
/// is required): a session name, the literal input, a special key out of
/// `special_key_names` and the modifiers to apply to it.
pub fn definition() -> (r: ToolDefinition)
    ensures
        r.def_type@ == "function"@,
        r.function.name@ == "terminal_send"@,
        r.function.description@ == send_tool_description(),
        has_schema(r.function.parameters, send_properties(), seq!["name"@]),
{
    let keys = vec![
        "enter", "tab", "escape", "backspace", "up", "down", "left", "right", "home", "end", "page_up",
        "page_down", "f1", "f2", "f3", "f4", "f5", "f6", "f7", "f8", "f9", "f10", "f11", "f12",
    ];
    let ghost key_names = keys@.map_values(|s: &str| s@);
    let special_key = choice_property("string", keys, "Special key to send to the terminal");
    let modifiers = choice_list_property(vec!["ctrl", "alt", "shift"], "Modifier keys to apply to the special_key");
    let props = vec![
        member("name", property("string", "Name of the terminal session to send input to")),
        member("input", property("string", "Literal text to send to the terminal")),
        member("special_key", special_key),
        member("modifiers", modifiers),
    ];
    proof {
        assert(key_names =~= special_key_names());
        assert(seq!["ctrl", "alt", "shift"].map_values(|s: &str| s@) =~= seq!["ctrl"@, "alt"@, "shift"@]);
        let shapes = send_properties();
        assert(describes(props@, shapes)) by {
            assert forall|i: int| 0 <= i < props@.len() implies #[trigger] props@[i].0@ == shapes[i].0 && has_shape(
                props@[i].1,
                shapes[i].1,
            ) by {
                assert(0 <= i < 4);
            }
        }
    }
    let parameters = schema(props, vec!["name"]);
    proof {
        lemma_schema_described(parameters, send_properties(), seq!["name"@]);
    }
    tool_definition(
        "terminal_send",
        "Send input to an interactive terminal session. Either provide literal text via 'input' or a special key with optional modifiers.",
        parameters,
    )
}

/// Whether a list of texts holds `name`.
pub open spec fn lists(texts: Seq<Seq<char>>, name: Seq<char>) -> bool {
    exists|i: int| 0 <= i < texts.len() && #[trigger] texts[i] == name
}

/// The texts of a list of JSON values that are all strings, or `None` when
/// one of them is not a string.
pub open spec fn string_texts(items: Seq<Json>) -> Option<Seq<Seq<char>>> {
    if forall|i: int| 0 <= i < items.len() ==> #[trigger] items[i] is String {
        Some(
            items.map_values(
                |j: Json|
                    match j {
                        Json::String(t) => t@,
                        _ => Seq::empty(),
                    },
            ),
        )
    } else {
        None
    }
}

/// An argument that lists strings: none when it is absent, the texts of an
/// array of strings, or `None` for any other value.
pub open spec fn string_list_arg(args: Json, key: Seq<char>) -> Option<Seq<Seq<char>>> {
    match field(Some(args), key) {
        None => Some(Seq::empty()),
        Some(Json::Array(items)) => string_texts(items@),
        Some(_) => None,
    }
}

/// The message for an argument `key` that is not an array of strings.
pub open spec fn string_list_message(key: Seq<char>) -> Seq<char> {
    "Error: Argument '"@ + key + "' must be an array of strings"@
}

/// The argument `key` as a list of strings: empty when the argument is
/// absent, the strings of an array of strings, and an error for anything else.
pub fn require_string_array(args: &Json, key: &str) -> (r: Result<Vec<String>, ToolResult>)
    ensures
        match string_list_arg(*args, key@) {
            Some(texts) => r matches Ok(v) && string_views(v@) == texts,
            None => r matches Err(e) && e.is_error && e.content@ == string_list_message(key@),
        },
{
    let items = match args.get(key) {
        None => {
            let empty: Vec<String> = Vec::new();
            assert(string_views(empty@) =~= Seq::<Seq<char>>::empty());
            return Ok(empty);
        },
        Some(v) => match v.as_array() {
            Some(items) => items,
            None => {
                return Err(tool_error(join3("Error: Argument '", key, "' must be an array of strings")));
            },
        },
    };
    assert(string_list_arg(*args, key@) == string_texts(items@));
    let mut out: Vec<String> = Vec::new();
    let mut i: usize = 0;
    while i < items.len()
        invariant
            string_list_arg(*args, key@) == string_texts(items@),
            i <= items@.len(),
            out@.len() == i,
            forall|k: int| 0 <= k < i ==> #[trigger] items@[k] is String,
            forall|k: int|
                0 <= k < i ==> (match #[trigger] items@[k] {
                    Json::String(t) => out@[k]@ == t@,
                    _ => false,
                }),
        decreases items.len() - i,
    {
        match &items[i] {
            Json::String(t) => {
                out.push(t.clone());
            },
            _ => {
                assert(!(items@[i as int] is String));
                assert(string_texts(items@) is None);
                return Err(tool_error(join3("Error: Argument '", key, "' must be an array of strings")));
            },
        }
        i = i + 1;
    }
    proof {
        let texts = items@.map_values(
            |j: Json|
                match j {
                    Json::String(t) => t@,
                    _ => Seq::empty(),
                },
        );
        assert(string_views(out@) =~= texts);
    }
    Ok(out)
}

/// The message when a send names neither text nor a key.
pub open spec fn nothing_to_send_message() -> Seq<char> {
    "Error: Either 'input' or 'special_key' must be provided"@
}

/// What a `terminal_send` call sends: the `input` text as it stands (UTF-8
/// encoded) when given, else the sequence of `special_key` with the
/// `modifiers`; or the error message of a bad modifier list, a missing
/// input or an unknown key.
pub open spec fn send_payload_outcome(args: Json) -> Result<Seq<u8>, Seq<char>> {
    match string_list_arg(args, "modifiers"@) {
        None => Err(string_list_message("modifiers"@)),
        Some(mods) => match (str_of(field(Some(args), "input"@)), str_of(field(Some(args), "special_key"@))) {
            (Some(t), _) => Ok(encode_utf8(t)),
            (None, Some(k)) => match special_key(k, lists(mods, "ctrl"@), lists(mods, "alt"@), lists(mods, "shift"@)) {
                Some(seq) => Ok(encode_utf8(seq)),
                None => Err("Error: Unknown special key \'"@ + k + "\'"@),
            },
            (None, None) => Err(nothing_to_send_message()),
        },
    }
}

/// The bytes a `terminal_send` call sends (see `send_payload_outcome`).
pub fn send_payload(args: &Json) -> (r: Result<Vec<u8>, ToolResult>)
    ensures
        match send_payload_outcome(*args) {
            Ok(bytes) => r matches Ok(b) && b@ == bytes,
            Err(msg) => r matches Err(e) && e.is_error && e.content@ == msg,
        },
{
    let input = str_field(Some(args), "input");
    let key = str_field(Some(args), "special_key");
    let modifiers = match require_string_array(args, "modifiers") {
        Ok(m) => m,
        Err(e) => {
            return Err(e);
        },
    };
    match input {
        Some(t) => Ok(t.as_str().as_bytes_vec()),
        None => match key {
            Some(k) => {
                let ghost mods = string_views(modifiers@);
                proof {
                    assert forall|n: Seq<char>| lists(mods, n) == names(modifiers@, n) by {
                        if lists(mods, n) {
                            let i = choose|i: int| 0 <= i < mods.len() && #[trigger] mods[i] == n;
                            assert(modifiers@[i]@ == n);
                        }
                        if names(modifiers@, n) {
                            let i = choose|i: int| 0 <= i < modifiers@.len() && #[trigger] modifiers@[i]@ == n;
                            assert(mods[i] == n);
                        }
                    }
                }
                match build_vt_sequence(k.as_str(), modifiers.as_slice()) {
                    Ok(seq) => Ok(seq.as_str().as_bytes_vec()),
                    Err(e) => Err(e),
                }
            },
            None => Err(tool_error(String::from_str("Error: Either 'input' or 'special_key' must be provided"))),
        },
    }
}

} // verus!
