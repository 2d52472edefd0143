//! Reading a terminal: which lines of the screen a read returns.
use vstd::prelude::*;

use crate::text::{chars_of, push_char};
use crate::tools::terminal::{strip_ansi, strip_ansi_codes};
use crate::json::member;
use crate::tools::operations::{
    describes, has_schema, has_shape, lemma_schema_described, property, schema, tool_definition, PropertyShape,
};
use crate::types::ToolDefinition;

verus! {

/// The first `k >= from` where `s[k]` is a newline, or the length of `s`.
pub open spec fn newline_index(s: Seq<char>, from: int) -> int
    decreases s.len() - from,
{
    if from >= s.len() {
        s.len() as int
    } else if s[from] == '\n' {
        from
    } else {
        newline_index(s, from + 1)
    }
}

pub proof fn lemma_newline_index_bounds(s: Seq<char>, from: int)
    requires
        0 <= from,
    ensures
        from <= newline_index(s, from) || newline_index(s, from) == s.len(),
        newline_index(s, from) <= s.len(),
    decreases s.len() - from,
{
    if from < s.len() && s[from] != '\n' {
        lemma_newline_index_bounds(s, from + 1);
    }
}

/// The lines of `s[i..]` as `str::lines` gives them: split at `\n`, a `\r` just
/// before the `\n` dropped, and no empty last line after a final `\n`.
pub open spec fn lines_from(s: Seq<char>, i: int) -> Seq<Seq<char>>
    decreases s.len() - i,
{
    if i < 0 || i >= s.len() {
        Seq::empty()
    } else {
        let k = newline_index(s, i);
        proof {
            lemma_newline_index_bounds(s, i);
        }
        if k >= s.len() {
            seq![s.subrange(i, s.len() as int)]
        } else {
            let line = if k > i && s[k - 1] == '\r' {
                s.subrange(i, k - 1)
            } else {
                s.subrange(i, k)
            };
            seq![line] + lines_from(s, k + 1)
        }
    }
}

/// The lines of `s`, as `str::lines` gives them.
pub open spec fn text_lines(s: Seq<char>) -> Seq<Seq<char>> {
    lines_from(s, 0)
}

/// The lines joined with a newline between each two.
pub open spec fn join_lines(v: Seq<Seq<char>>) -> Seq<char>
    decreases v.len(),
{
    if v.len() == 0 {
        Seq::empty()
    } else if v.len() == 1 {
        v[0]
    } else {
        join_lines(v.drop_last()) + seq!['\n'] + v.last()
    }
}

/// The first line index of a read of `lines` lines that skips `offset` lines
/// from the bottom of `total`.
pub open spec fn window_start(total: int, lines: int, offset: int) -> int {
    if total > offset + lines {
        total - offset - lines
    } else {
        0
    }
}

/// The index just past the last line of such a read.
pub open spec fn window_end(total: int, offset: int) -> int {
    if total > offset {
        total - offset
    } else {
        0
    }
}

/// The text a read returns: of the lines of `content` (counted in a `u16`),
/// the `lines` lines that end `offset` lines above the bottom, each without
/// ANSI escapes, joined with newlines.
pub open spec fn window_text(content: Seq<char>, lines: int, offset: int) -> Seq<char> {
    let all = text_lines(content);
    let total = all.len() as int % 65536;
    join_lines(
        all.subrange(window_start(total, lines, offset), window_end(total, offset)).map_values(
            |l: Seq<char>| strip_ansi(l),
        ),
    )
}

/// The texts of the character ranges `spans` of `s`.
pub open spec fn span_texts(s: Seq<char>, spans: Seq<(usize, usize)>) -> Seq<Seq<char>> {
    spans.map_values(|p: (usize, usize)| s.subrange(p.0 as int, p.1 as int))
}

/// Whether every range of `spans` lies inside a text of length `n`.
pub open spec fn spans_within(spans: Seq<(usize, usize)>, n: nat) -> bool {
    forall|m: int| 0 <= m < spans.len() ==> #[trigger] spans[m].0 <= spans[m].1 <= n
}

/// The character ranges of the lines of `cs`.
fn line_spans(cs: &Vec<char>) -> (spans: Vec<(usize, usize)>)
    ensures
        span_texts(cs@, spans@) == text_lines(cs@),
        spans_within(spans@, cs@.len()),
{
    let ghost s = cs@;
    let mut spans: Vec<(usize, usize)> = Vec::new();
    let mut i: usize = 0;
    while i < cs.len()
        invariant
            s == cs@,
            i <= cs@.len(),
            text_lines(s) == span_texts(s, spans@) + lines_from(s, i as int),
            spans_within(spans@, cs@.len()),
        decreases cs.len() - i,
    {
        let mut k = i;
        while k < cs.len() && cs[k] != '\n'
            invariant
                i <= k <= cs@.len(),
                newline_index(s, i as int) == newline_index(s, k as int),
                s == cs@,
            decreases cs.len() - k,
        {
            k = k + 1;
        }
        let ghost before = spans@;
        if k == cs.len() {
            spans.push((i, k));
            assert forall|m: int| 0 <= m < spans@.len() implies #[trigger] spans@[m].0 <= spans@[m].1 <= cs@.len() by {
                if m < before.len() {
                    assert(spans@[m] == before[m]);
                }
            }
            assert(span_texts(s, spans@) =~= span_texts(s, before) + seq![s.subrange(i as int, k as int)]);
            assert(lines_from(s, k as int) =~= Seq::<Seq<char>>::empty());
            i = k;
        } else {
            let end = if k > i && cs[k - 1] == '\r' {
                k - 1
            } else {
                k
            };
            spans.push((i, end));
            assert forall|m: int| 0 <= m < spans@.len() implies #[trigger] spans@[m].0 <= spans@[m].1 <= cs@.len() by {
                if m < before.len() {
                    assert(spans@[m] == before[m]);
                }
            }
            assert(span_texts(s, spans@) =~= span_texts(s, before) + seq![s.subrange(i as int, end as int)]);
            i = k + 1;
        }
    }
    assert(span_texts(s, spans@) + Seq::<Seq<char>>::empty() =~= span_texts(s, spans@));
    spans
}

/// The lines a read returns: of the lines of `content`, the `lines` lines that
/// end `offset_from_bottom` lines above the bottom (as many as there are), with
/// ANSI escapes stripped and joined with newlines.
pub fn read_window(content: &str, lines: u16, offset_from_bottom: u16) -> (r: String)
    requires
        offset_from_bottom + lines <= u16::MAX,
    ensures
        r@ == window_text(content@, lines as int, offset_from_bottom as int),
{
    let cs = chars_of(content);
    let spans = line_spans(&cs);
    let total_lines = (spans.len() % 65536) as u16;
    let start_idx: usize = if total_lines > offset_from_bottom + lines {
        (total_lines - offset_from_bottom - lines) as usize
    } else {
        0
    };
    let end_idx: usize = if total_lines > offset_from_bottom {
        (total_lines - offset_from_bottom) as usize
    } else {
        0
    };
    let ghost all = text_lines(content@);
    let ghost picked = all.subrange(start_idx as int, end_idx as int).map_values(
        |l: Seq<char>| strip_ansi(l),
    );
    let mut result = String::new();
    let mut j = start_idx;
    while j < end_idx
        invariant
            cs@ == content@,
            all == text_lines(cs@),
            span_texts(cs@, spans@) == all,
            spans_within(spans@, cs@.len()),
            start_idx <= j <= end_idx <= spans@.len(),
            picked == all.subrange(start_idx as int, end_idx as int).map_values(
                |l: Seq<char>| strip_ansi(l),
            ),
            result@ == join_lines(picked.take(j - start_idx)),
        decreases end_idx - j,
    {
        let (a, b) = spans[j];
        let line = crate::text::string_of_range(&cs, a, b);
        assert(line@ == all[j as int]);
        let stripped = strip_ansi_codes(line.as_str());
        assert(picked[j - start_idx] == stripped@);
        let ghost prev = result@;
        if j > start_idx {
            push_char(&mut result, '\n');
        }
        result.append(stripped.as_str());
        assert(picked.take(j + 1 - start_idx).drop_last() =~= picked.take(j - start_idx));
        if j == start_idx {
            assert(result@ =~= stripped@);
        } else {
            assert(result@ =~= prev + seq!['\n'] + stripped@);
        }
        j = j + 1;
    }
    assert(picked.take(end_idx - start_idx) =~= picked);
    result
}

/// The description of the terminal_read tool.
pub open spec fn read_tool_description() -> Seq<char> {
    "Read the current content of a terminal session. Returns the visible screen content as plain text with ANSI codes stripped."@
}

/// The properties of the terminal_read tool's arguments, in order.
pub open spec fn read_properties() -> Seq<(Seq<char>, PropertyShape)> {
    seq![
        ("name"@, PropertyShape::Plain { ty: "string"@, description: "Terminal name"@ }),
        ("lines"@, PropertyShape::Plain { ty: "integer"@, description: "Number of lines to read (default: terminal height)"@ }),
        ("offset_from_bottom"@, PropertyShape::Plain { ty: "integer"@, description: "Lines from bottom to skip (default: 0)"@ }),
    ]
}

/// The definition of the terminal_read tool: its name, what it does, and exactly
/// the schema of its arguments (`read_properties`, of which `name` required).
pub fn definition() -> (r: ToolDefinition)
    ensures
        r.def_type@ == "function"@,
        r.function.name@ == "terminal_read"@,
        r.function.description@ == read_tool_description(),
        has_schema(r.function.parameters, read_properties(), seq!["name"@]),
{
    let props = vec![
        member("name", property("string", "Terminal name")),
        member("lines", property("integer", "Number of lines to read (default: terminal height)")),
        member("offset_from_bottom", property("integer", "Lines from bottom to skip (default: 0)")),
    ];
    proof {
        let shapes = read_properties();
        assert(describes(props@, shapes)) by {
            assert forall|i: int| 0 <= i < props@.len() implies #[trigger] props@[i].0@ == shapes[i].0 && has_shape(
                props@[i].1,
                shapes[i].1,
            ) by {
                assert(0 <= i < 3);
                if i == 0 {} else if i == 1 {} else {}
            }
        }
    }
    let parameters = schema(props, vec!["name"]);
    proof {
        lemma_schema_described(parameters, read_properties(), seq!["name"@]);
    }
    tool_definition("terminal_read", "Read the current content of a terminal session. Returns the visible screen content as plain text with ANSI codes stripped.", parameters)
}

} // verus!
