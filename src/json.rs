//! The JSON text form used for request bodies: string escaping, decimal
//! numbers and objects built from an ordered list of members.
use vstd::prelude::*;
use vstd::string::*;

verus! {

/// The lowercase hexadecimal digits, also used for decimal digits.
pub open spec fn digit_char(d: nat) -> char {
    "0123456789abcdef"@[d as int]
}

/// How one character appears inside a JSON string literal.
pub open spec fn escape_char(c: char) -> Seq<char> {
    if c == '"' {
        seq!['\\', '"']
    } else if c == '\\' {
        seq!['\\', '\\']
    } else if c == '\n' {
        seq!['\\', 'n']
    } else if c == '\r' {
        seq!['\\', 'r']
    } else if c == '\t' {
        seq!['\\', 't']
    } else if c == '\x08' {
        seq!['\\', 'b']
    } else if c == '\x0c' {
        seq!['\\', 'f']
    } else if (c as u32) < 0x20 {
        seq!['\\', 'u', '0', '0', digit_char((c as u32 / 16) as nat), digit_char((c as u32 % 16) as nat)]
    } else {
        seq![c]
    }
}

/// The escaped form of a whole character sequence.
pub open spec fn escape(s: Seq<char>) -> Seq<char>
    decreases s.len(),
{
    if s.len() == 0 {
        Seq::empty()
    } else {
        escape(s.drop_last()) + escape_char(s.last())
    }
}

/// A JSON string literal holding `s`.
pub open spec fn json_string(s: Seq<char>) -> Seq<char> {
    seq!['"'] + escape(s) + seq!['"']
}

/// The decimal digits of `n`, without leading zeros.
pub open spec fn decimal(n: nat) -> Seq<char>
    decreases n,
{
    if n < 10 {
        seq![digit_char(n)]
    } else {
        decimal(n / 10) + seq![digit_char(n % 10)]
    }
}

/// One `"key":value` member; `value` is already JSON text.
pub open spec fn member_text(m: (Seq<char>, Seq<char>)) -> Seq<char> {
    json_string(m.0) + seq![':'] + m.1
}

/// The members, in order, separated by commas.
pub open spec fn members_text(ms: Seq<(Seq<char>, Seq<char>)>) -> Seq<char>
    decreases ms.len(),
{
    if ms.len() == 0 {
        Seq::empty()
    } else if ms.len() == 1 {
        member_text(ms[0])
    } else {
        members_text(ms.drop_last()) + seq![','] + member_text(ms.last())
    }
}

/// A JSON object with the given members, in order.
pub open spec fn object_text(ms: Seq<(Seq<char>, Seq<char>)>) -> Seq<char> {
    seq!['{'] + members_text(ms) + seq!['}']
}

/// The one-character string at position `d` of the digit table.
fn digit_str(d: usize) -> (r: &'static str)
    requires
        d < 16,
    ensures
        r@ == seq![digit_char(d as nat)],
{
    let digits: &'static str = "0123456789abcdef";
    proof {
        reveal_strlit("0123456789abcdef");
    }
    digits.substring_char(d, d + 1)
}

/// Appends the escaped form of `c`, which is `s@[i]`.
fn append_escaped_char(out: &mut String, s: &str, i: usize)
    requires
        i < s@.len() <= usize::MAX,
    ensures
        final(out)@ == old(out)@ + escape_char(s@[i as int]),
{
    let c = s.get_char(i);
    if c == '"' {
        out.append("\\\"");
        proof { reveal_strlit("\\\""); }
    } else if c == '\\' {
        out.append("\\\\");
        proof { reveal_strlit("\\\\"); }
    } else if c == '\n' {
        out.append("\\n");
        proof { reveal_strlit("\\n"); }
    } else if c == '\r' {
        out.append("\\r");
        proof { reveal_strlit("\\r"); }
    } else if c == '\t' {
        out.append("\\t");
        proof { reveal_strlit("\\t"); }
    } else if c == '\x08' {
        out.append("\\b");
        proof { reveal_strlit("\\b"); }
    } else if c == '\x0c' {
        out.append("\\f");
        proof { reveal_strlit("\\f"); }
    } else if (c as u32) < 0x20 {
        out.append("\\u00");
        proof { reveal_strlit("\\u00"); }
        let code: u32 = c as u32;
        out.append(digit_str((code / 16) as usize));
        out.append(digit_str((code % 16) as usize));
    } else {
        out.append(s.substring_char(i, i + 1));
    }
    assert(final(out)@ =~= old(out)@ + escape_char(s@[i as int]));
}

/// Appends `s` as a JSON string literal, quotes included.
pub fn append_json_string(out: &mut String, s: &str)
    ensures
        final(out)@ == old(out)@ + json_string(s@),
{
    let n = s.unicode_len();
    let ghost start = out@;
    out.append("\"");
    proof { reveal_strlit("\""); }
    let mut i: usize = 0;
    while i < n
        invariant
            n == s@.len(),
            i <= n,
            out@ == start + seq!['"'] + escape(s@.subrange(0, i as int)),
        decreases n - i,
    {
        append_escaped_char(out, s, i);
        proof {
            assert(s@.subrange(0, i + 1).drop_last() =~= s@.subrange(0, i as int));
        }
        i = i + 1;
    }
    out.append("\"");
    assert(s@.subrange(0, n as int) =~= s@);
    assert(out@ =~= start + json_string(s@));
}

/// Appends the decimal digits of `n`.
pub fn append_decimal(out: &mut String, n: usize)
    ensures
        final(out)@ == old(out)@ + decimal(n as nat),
    decreases n,
{
    if n >= 10 {
        append_decimal(out, n / 10);
    }
    out.append(digit_str(n % 10));
    assert(final(out)@ =~= old(out)@ + decimal(n as nat));
}

/// The members held by `ms`, as character sequences.
pub open spec fn members_view(ms: Seq<(&str, String)>) -> Seq<(Seq<char>, Seq<char>)> {
    ms.map_values(|m: (&str, String)| (m.0@, m.1@))
}

/// A JSON string literal holding `s`.
pub fn json_string_of(s: &str) -> (r: String)
    ensures
        r@ == json_string(s@),
{
    let mut out = String::new();
    append_json_string(&mut out, s);
    assert(out@ =~= json_string(s@));
    out
}

/// The decimal text of `n`.
pub fn decimal_of(n: usize) -> (r: String)
    ensures
        r@ == decimal(n as nat),
{
    let mut out = String::new();
    append_decimal(&mut out, n);
    assert(out@ =~= decimal(n as nat));
    out
}

/// The JSON object whose members are `ms`, in order; each value is JSON text.
pub fn object_of(ms: &Vec<(&str, String)>) -> (r: String)
    ensures
        r@ == object_text(members_view(ms@)),
{
    let mut out = String::new();
    out.append("{");
    proof { reveal_strlit("{"); }
    let mut i: usize = 0;
    while i < ms.len()
        invariant
            i <= ms@.len(),
            out@ == seq!['{'] + members_text(members_view(ms@.subrange(0, i as int))),
        decreases ms@.len() - i,
    {
        let ghost prev = members_view(ms@.subrange(0, i as int));
        let ghost next = members_view(ms@.subrange(0, i + 1));
        assert(next.drop_last() =~= prev);
        assert(next.last() == (ms@[i as int].0@, ms@[i as int].1@));
        if i > 0 {
            out.append(",");
            proof { reveal_strlit(","); }
        }
        append_json_string(&mut out, ms[i].0);
        out.append(":");
        proof { reveal_strlit(":"); }
        out.append(ms[i].1.as_str());
        assert(out@ =~= seq!['{'] + members_text(next));
        i = i + 1;
    }
    out.append("}");
    proof { reveal_strlit("}"); }
    assert(ms@.subrange(0, ms@.len() as int) =~= ms@);
    assert(out@ =~= object_text(members_view(ms@)));
    out
}

/// A character that stands for itself inside a JSON string literal.
pub open spec fn is_plain_char(c: char) -> bool {
    c != '"' && c != '\\' && (c as u32) >= 0x20
}

/// A sequence of plain characters is its own escaped form.
pub proof fn lemma_escape_plain(s: Seq<char>)
    requires
        forall|i: int| 0 <= i < s.len() ==> is_plain_char(#[trigger] s[i]),
    ensures
        escape(s) == s,
    decreases s.len(),
{
    if s.len() > 0 {
        lemma_escape_plain(s.drop_last());
        assert(s.drop_last() + seq![s.last()] =~= s);
    }
}

} // verus!
