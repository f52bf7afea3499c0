//! Reconstruction of cross-turn state out of the conversation history:
//! the most recent system instructions, and the server-assigned
//! continuation identifier carried inside an assistant turn whose text
//! begins with the reserved marker prefix.

use vstd::prelude::*;
use vstd::string::StrSliceExecFns;
use crate::model::{Message, MessageContent, MessageRole, spec_content_text};

verus! {

/// The reserved marker prefix of an assistant turn that carries a
/// continuation identifier.
pub open spec fn has_marker(t: Seq<char>) -> bool {
    t.len() >= 3 && t[0] == 'i' && t[1] == 'd' && t[2] == ':'
}

/// Whitespace stripped from around the identifier.
pub open spec fn is_space(c: char) -> bool {
    c == ' ' || c == '\t' || c == '\r' || c == '\n'
}

/// Length of the first line of `s`: the index of the first newline, or the
/// whole length when there is none.
pub open spec fn spec_line_end(s: Seq<char>) -> int
    decreases s.len(),
{
    if s.len() == 0 {
        0
    } else if s[0] == '\n' {
        0
    } else {
        1 + spec_line_end(s.drop_first())
    }
}

pub open spec fn spec_trim_start(s: Seq<char>) -> Seq<char>
    decreases s.len(),
{
    if s.len() > 0 && is_space(s[0]) {
        spec_trim_start(s.drop_first())
    } else {
        s
    }
}

pub open spec fn spec_trim_end(s: Seq<char>) -> Seq<char>
    decreases s.len(),
{
    if s.len() > 0 && is_space(s.last()) {
        spec_trim_end(s.drop_last())
    } else {
        s
    }
}

/// `s` with leading and trailing whitespace removed.
pub open spec fn spec_trim(s: Seq<char>) -> Seq<char> {
    spec_trim_end(spec_trim_start(s))
}

/// The identifier carried by a marker text: what stands after the marker on
/// its first line, trimmed.
pub open spec fn spec_marker_id(t: Seq<char>) -> Seq<char> {
    let rest = t.skip(3);
    spec_trim(rest.take(spec_line_end(rest)))
}

/// The continuation identifier a single message carries, if any: only an
/// assistant turn whose plain text begins with the marker carries one.
pub open spec fn msg_continuation(m: Message) -> Option<Seq<char>> {
    match m.content {
        MessageContent::Text(t) => if m.role is Assistant && has_marker(t@) {
            Some(spec_marker_id(t@))
        } else {
            None
        },
        _ => None,
    }
}

/// The instructions the history carries: the plain-text reading of the most
/// recent system turn.
pub open spec fn spec_instructions(h: Seq<Message>) -> Option<Seq<char>>
    decreases h.len(),
{
    if h.len() == 0 {
        None
    } else if h.last().role is System {
        Some(spec_content_text(h.last().content))
    } else {
        spec_instructions(h.drop_last())
    }
}

/// The most recent marker-carrying assistant turn of the history: its index
/// and the identifier it carries.
pub open spec fn spec_continuation(h: Seq<Message>) -> Option<(int, Seq<char>)>
    decreases h.len(),
{
    if h.len() == 0 {
        None
    } else {
        match msg_continuation(h.last()) {
            Some(id) => Some((h.len() - 1, id)),
            None => spec_continuation(h.drop_last()),
        }
    }
}

/// The continuation identifier the history carries, if any.
pub open spec fn spec_continuation_id(h: Seq<Message>) -> Option<Seq<char>> {
    match spec_continuation(h) {
        Some(p) => Some(p.1),
        None => None,
    }
}

/// View of an optional owned string.
pub open spec fn view_opt(o: Option<String>) -> Option<Seq<char>> {
    match o {
        Some(s) => Some(s@),
        None => None,
    }
}

proof fn lemma_line_end(s: Seq<char>)
    ensures
        0 <= spec_line_end(s) <= s.len(),
        spec_line_end(s) < s.len() ==> s[spec_line_end(s)] == '\n',
        forall|k: int| 0 <= k < spec_line_end(s) ==> s[k] != '\n',
    decreases s.len(),
{
    if s.len() > 0 && s[0] != '\n' {
        lemma_line_end(s.drop_first());
        assert forall|k: int| 0 <= k < spec_line_end(s) implies s[k] != '\n' by {
            if k > 0 {
                assert(s.drop_first()[k - 1] == s[k]);
            }
        }
    }
}

proof fn lemma_trim_start(s: Seq<char>, k: int)
    requires
        0 <= k <= s.len(),
        forall|i: int| 0 <= i < k ==> is_space(s[i]),
        k < s.len() ==> !is_space(s[k]),
    ensures
        spec_trim_start(s) =~= s.skip(k),
    decreases k,
{
    if k == 0 {
        assert(spec_trim_start(s) =~= s);
    } else {
        assert(is_space(s[0]));
        lemma_trim_start(s.drop_first(), k - 1);
        assert(s.drop_first().skip(k - 1) =~= s.skip(k));
    }
}

proof fn lemma_trim_end(s: Seq<char>, b: int)
    requires
        0 <= b <= s.len(),
        forall|i: int| b <= i < s.len() ==> is_space(s[i]),
        b > 0 ==> !is_space(s[b - 1]),
    ensures
        spec_trim_end(s) =~= s.take(b),
    decreases s.len() - b,
{
    if b == s.len() {
        if s.len() > 0 && is_space(s.last()) {
            lemma_trim_end(s.drop_last(), b - 1);
            assert(s.drop_last().take(b - 1) =~= s.take(b - 1));
            assert(b - 1 > 0 ==> s.drop_last()[b - 2] == s[b - 2]);
            assert(false);
        } else {
            assert(spec_trim_end(s) =~= s.take(b));
        }
    } else {
        assert(is_space(s.last()));
        lemma_trim_end(s.drop_last(), b);
        assert(s.drop_last().take(b) =~= s.take(b));
    }
}

/// Whether `t` begins with the reserved marker prefix.
pub fn starts_with_marker(t: &str) -> (r: bool)
    ensures
        r == has_marker(t@),
{
    t.unicode_len() >= 3 && t.get_char(0) == 'i' && t.get_char(1) == 'd' && t.get_char(2) == ':'
}

fn is_space_char(c: char) -> (r: bool)
    ensures
        r == is_space(c),
{
    c == ' ' || c == '\t' || c == '\r' || c == '\n'
}

/// Parse the continuation identifier out of a marker text.
pub fn parse_marker_id(t: &str) -> (r: String)
    requires
        has_marker(t@),
    ensures
        r@ == spec_marker_id(t@),
{
    let len = t.unicode_len();
    let ghost rest = t@.skip(3);
    // the end of the first line after the marker
    let mut j: usize = 3;
    while j < len && t.get_char(j) != '\n'
        invariant
            3 <= j <= len,
            len == t@.len(),
            forall|k: int| 3 <= k < j ==> t@[k] != '\n',
        decreases len - j,
    {
        j = j + 1;
    }
    proof {
        lemma_line_end(rest);
        let e = spec_line_end(rest);
        if e < j - 3 {
            assert(rest[e] == t@[e + 3]);
            assert(false);
        }
        if e > j - 3 {
            assert(rest[j - 3] == t@[j as int]);
            assert(false);
        }
    }
    let ghost seg = rest.take(spec_line_end(rest));
    // trim whitespace off both ends of the segment
    let mut a: usize = 3;
    while a < j && is_space_char(t.get_char(a))
        invariant
            3 <= a <= j,
            j <= len,
            len == t@.len(),
            forall|k: int| 3 <= k < a ==> is_space(t@[k]),
        decreases j - a,
    {
        a = a + 1;
    }
    let mut b: usize = j;
    while b > a && is_space_char(t.get_char(b - 1))
        invariant
            a <= b <= j,
            j <= len,
            len == t@.len(),
            forall|k: int| b <= k < j ==> is_space(t@[k]),
        decreases b,
    {
        b = b - 1;
    }
    proof {
        assert(seg.len() == j - 3);
        assert(forall|k: int| 0 <= k < seg.len() ==> seg[k] == t@[k + 3]);
        lemma_trim_start(seg, a - 3);
        let sk = seg.skip(a - 3);
        assert(forall|k: int| 0 <= k < sk.len() ==> sk[k] == t@[k + a]);
        lemma_trim_end(sk, b - a);
        assert(spec_marker_id(t@) =~= t@.subrange(a as int, b as int));
    }
    let id = t.substring_char(a, b);
    id.to_owned()
}

/// Scan a history segment: the most recent instructions, the most recent
/// continuation identifier, and the index of the turn that carried it.
pub fn scan_history(history: &[Message]) -> (r: (Option<String>, Option<String>, Option<usize>))
    ensures
        view_opt(r.0) == spec_instructions(history@),
        view_opt(r.1) == spec_continuation_id(history@),
        match r.2 {
            Some(i) => spec_continuation(history@) matches Some(p) && p.0 == i as int && (i as int)
                < history@.len(),
            None => spec_continuation(history@) is None,
        },
{
    let mut instructions: Option<String> = None;
    let mut prev_id: Option<String> = None;
    let mut prev_index: Option<usize> = None;
    let n = history.len();
    let mut i: usize = 0;
    while i < n
        invariant
            i <= n,
            n == history@.len(),
            view_opt(instructions) == spec_instructions(history@.take(i as int)),
            view_opt(prev_id) == spec_continuation_id(history@.take(i as int)),
            match prev_index {
                Some(k) => spec_continuation(history@.take(i as int)) matches Some(p) && p.0
                    == k as int && (k as int) < i as int,
                None => spec_continuation(history@.take(i as int)) is None,
            },
        decreases n - i,
    {
        proof {
            assert(history@.take(i + 1).drop_last() =~= history@.take(i as int));
            assert(history@.take(i + 1).last() == history@[i as int]);
        }
        let m = &history[i];
        match m.role {
            MessageRole::System => {
                instructions = Some(m.content.to_text());
            },
            MessageRole::Assistant => {
                match &m.content {
                    MessageContent::Text(t) => {
                        if starts_with_marker(t.as_str()) {
                            prev_id = Some(parse_marker_id(t.as_str()));
                            prev_index = Some(i);
                        }
                    },
                    _ => {},
                }
            },
            _ => {},
        }
        i = i + 1;
    }
    proof {
        assert(history@.take(n as int) =~= history@);
    }
    (instructions, prev_id, prev_index)
}

/// Extract from a history segment the instructions of its most recent
/// system turn and the continuation identifier of its most recent
/// marker-carrying assistant turn.
pub fn extract_history(history: &[Message]) -> (r: (Option<String>, Option<String>))
    ensures
        view_opt(r.0) == spec_instructions(history@),
        view_opt(r.1) == spec_continuation_id(history@),
{
    let (instructions, prev_id, _) = scan_history(history);
    (instructions, prev_id)
}

} // verus!
