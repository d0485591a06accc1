//! The machine-readable report: one JSON object per line for the scan, for
//! each file, and for the totals.

use vstd::prelude::*;
use crate::convert::{FileResult, Status};
use crate::scan::ScanCounts;
use crate::summary::Tally;

verus! {

/// The decimal digits, in order.
pub open spec fn decimal_digits() -> Seq<char> {
    "0123456789"@
}

/// The lower-case hexadecimal digits, in order.
pub open spec fn hex_digits() -> Seq<char> {
    "0123456789abcdef"@
}

/// The decimal notation of `n`, without leading zeros.
pub open spec fn decimal_text(n: nat) -> Seq<char>
    decreases n,
{
    if n < 10 {
        seq![decimal_digits()[n as int]]
    } else {
        decimal_text(n / 10) + seq![decimal_digits()[(n % 10) as int]]
    }
}

/// The digit `d` as a one-character string.
fn digit_text(digits: &'static str, d: usize) -> (res: &'static str)
    requires
        d < digits@.len(),
        d < 16,
    ensures
        res@ == seq![digits@[d as int]],
{
    let res = digits.substring_char(d, d + 1);
    assert(res@ =~= seq![digits@[d as int]]);
    res
}

/// The decimal notation of `n`.
pub fn decimal(n: u64) -> (res: String)
    ensures
        res@ == decimal_text(n as nat),
    decreases n,
{
    proof {
        reveal_strlit("0123456789");
    }
    if n < 10 {
        String::from_str(digit_text("0123456789", n as usize))
    } else {
        let mut s = decimal(n / 10);
        s.append(digit_text("0123456789", (n % 10) as usize));
        s
    }
}

/// `c` as it stands inside a JSON string.
pub open spec fn escaped_char(c: char) -> Seq<char> {
    if c == '"' {
        seq!['\\', '"']
    } else if c == '\\' {
        seq!['\\', '\\']
    } else if c == '\n' {
        seq!['\\', 'n']
    } else if c == '\r' {
        seq!['\\', 'r']
    } else if c == '\t' {
        seq!['\\', 't']
    } else if c == '\x08' {
        seq!['\\', 'b']
    } else if c == '\x0c' {
        seq!['\\', 'f']
    } else if (c as u32) < 0x20 {
        seq!['\\', 'u', '0', '0', hex_digits()[((c as u32) / 16) as int], hex_digits()[((c as u32) % 16) as int]]
    } else {
        seq![c]
    }
}

/// `s` as it stands between the quotes of a JSON string.
pub open spec fn json_escaped(s: Seq<char>) -> Seq<char>
    decreases s.len(),
{
    if s.len() == 0 {
        Seq::empty()
    } else {
        json_escaped(s.drop_last()) + escaped_char(s.last())
    }
}

/// Escaped text holds no control character: every character of it is at
/// least U+0020.
pub proof fn escaped_text_has_no_control_chars(s: Seq<char>)
    ensures
        forall|i: int| 0 <= i < json_escaped(s).len() ==> (json_escaped(s)[i] as u32) >= 0x20,
    decreases s.len(),
{
    reveal_strlit("0123456789abcdef");
    if s.len() > 0 {
        escaped_text_has_no_control_chars(s.drop_last());
        let a = json_escaped(s.drop_last());
        let b = escaped_char(s.last());
        assert forall|i: int| 0 <= i < b.len() implies (b[i] as u32) >= 0x20 by {
            let c = s.last();
            if (c as u32) < 0x20 && c != '\n' && c != '\r' && c != '\t' && c != '\x08' && c != '\x0c' {
                assert(((c as u32) / 16) < 16);
                assert(((c as u32) % 16) < 16);
            }
        }
        assert forall|i: int| 0 <= i < json_escaped(s).len() implies (json_escaped(s)[i] as u32) >= 0x20 by {
            assert(json_escaped(s) == a + b);
            if i < a.len() {
                assert(json_escaped(s)[i] == a[i]);
            } else {
                assert(json_escaped(s)[i] == b[i - a.len()]);
            }
        }
    }
}

/// The value of `c` as a hexadecimal digit, in either case.
pub open spec fn hex_value(c: char) -> Option<nat> {
    if '0' <= c <= '9' {
        Some((c as u32 - 48) as nat)
    } else if 'a' <= c <= 'f' {
        Some((c as u32 - 87) as nat)
    } else if 'A' <= c <= 'F' {
        Some((c as u32 - 55) as nat)
    } else {
        None
    }
}

/// The number that four hexadecimal digits spell, if they are digits.
pub open spec fn hex4(a: char, b: char, c: char, d: char) -> Option<nat> {
    match (hex_value(a), hex_value(b), hex_value(c), hex_value(d)) {
        (Some(w), Some(x), Some(y), Some(z)) => Some(4096 * w + 256 * x + 16 * y + z),
        _ => None,
    }
}

/// The character that the two-character JSON escape of `e` (a backslash,
/// then `e`) stands for.
pub open spec fn short_escape(e: char) -> Option<char> {
    if e == '"' {
        Some('"')
    } else if e == '\\' {
        Some('\\')
    } else if e == '/' {
        Some('/')
    } else if e == 'b' {
        Some('\x08')
    } else if e == 'f' {
        Some('\x0c')
    } else if e == 'n' {
        Some('\n')
    } else if e == 'r' {
        Some('\r')
    } else if e == 't' {
        Some('\t')
    } else {
        None
    }
}

/// `c` in front of the text `rest` stands for, where it stands for one.
pub open spec fn prepend(c: char, rest: Option<Seq<char>>) -> Option<Seq<char>> {
    match rest {
        Some(r) => Some(seq![c] + r),
        None => None,
    }
}

/// The text that `t`, the body of a JSON string, stands for when a JSON
/// parser reads it (RFC 8259, section 7); `None` where `t` is no valid body:
/// an unescaped quote or control character, or an unknown escape. A `\u`
/// escape of a UTF-16 surrogate is not decoded here.
pub open spec fn json_unescaped(t: Seq<char>) -> Option<Seq<char>>
    decreases t.len(),
{
    if t.len() == 0 {
        Some(Seq::empty())
    } else if t[0] == '"' || (t[0] as u32) < 0x20 {
        None
    } else if t[0] != '\\' {
        prepend(t[0], json_unescaped(t.skip(1)))
    } else if t.len() >= 2 && short_escape(t[1]) is Some {
        prepend(short_escape(t[1])->0, json_unescaped(t.skip(2)))
    } else if t.len() >= 6 && t[1] == 'u' {
        match hex4(t[2], t[3], t[4], t[5]) {
            Some(v) => if v < 0xD800 || 0xDFFF < v {
                prepend(v as char, json_unescaped(t.skip(6)))
            } else {
                None
            },
            None => None,
        }
    } else {
        None
    }
}

/// Escaping works character by character: the escape of two texts one
/// after the other is their escapes one after the other.
pub proof fn escaping_distributes(a: Seq<char>, b: Seq<char>)
    ensures
        json_escaped(a + b) == json_escaped(a) + json_escaped(b),
    decreases b.len(),
{
    if b.len() == 0 {
        assert(a + b =~= a);
        assert(json_escaped(a) + json_escaped(b) =~= json_escaped(a));
    } else {
        escaping_distributes(a, b.drop_last());
        assert((a + b).drop_last() =~= a + b.drop_last());
        assert((a + b).last() == b.last());
        assert(json_escaped(a + b) =~= json_escaped(a) + json_escaped(b));
    }
}

/// Each hexadecimal digit the escapes use reads back as its value.
proof fn hex_digit_reads_back(k: int)
    requires
        0 <= k < 16,
    ensures
        hex_value(hex_digits()[k]) == Some(k as nat),
{
    reveal_strlit("0123456789abcdef");
    assert(hex_digits() =~= seq!['0', '1', '2', '3', '4', '5', '6', '7', '8', '9', 'a', 'b', 'c', 'd', 'e', 'f']);
}

/// A JSON parser reads the escape of `c` back as `c`, whatever follows it.
proof fn escape_reads_back(c: char, t: Seq<char>)
    ensures
        json_unescaped(escaped_char(c) + t) == prepend(c, json_unescaped(t)),
{
    let u = escaped_char(c) + t;
    if c == '"' || c == '\\' || c == '\n' || c == '\r' || c == '\t' || c == '\x08' || c == '\x0c' {
        assert(u.skip(2) =~= t);
    } else if (c as u32) < 0x20 {
        let code = c as u32;
        hex_digit_reads_back((code / 16) as int);
        hex_digit_reads_back((code % 16) as int);
        assert(u[2] == '0' && u[3] == '0');
        assert(u[4] == hex_digits()[(code / 16) as int]);
        assert(u[5] == hex_digits()[(code % 16) as int]);
        assert(hex4(u[2], u[3], u[4], u[5]) == Some(code as nat));
        vstd::utf8::char_u32_cast(c, code);
        assert(u.skip(6) =~= t);
    } else {
        assert(u.skip(1) =~= t);
    }
}

/// Escaping is undone by JSON string decoding: a parser reading the escaped
/// text between quotes gets back exactly the text that was escaped.
pub proof fn unescaping_undoes_escaping(s: Seq<char>)
    ensures
        json_unescaped(json_escaped(s)) == Some(s),
    decreases s.len(),
{
    if s.len() == 0 {
        assert(json_escaped(s) =~= Seq::<char>::empty());
    } else {
        let first = seq![s[0]];
        let rest = s.skip(1);
        assert(s =~= first + rest);
        escaping_distributes(first, rest);
        assert(first.drop_last() =~= Seq::<char>::empty());
        assert(json_escaped(first.drop_last()) =~= Seq::<char>::empty());
        assert(first.last() == s[0]);
        assert(json_escaped(first) =~= escaped_char(s[0]));
        escape_reads_back(s[0], json_escaped(rest));
        unescaping_undoes_escaping(rest);
        assert(seq![s[0]] + rest =~= s);
    }
}

/// Appends `c` to `out` as it stands inside a JSON string, where `c` is the
/// character at `i` in `s`.
fn push_escaped(out: &mut String, s: &str, i: usize)
    requires
        i < s@.len(),
        s@.len() <= usize::MAX,
    ensures
        final(out)@ == old(out)@ + escaped_char(s@[i as int]),
{
    let c = s.get_char(i);
    if c == '"' {
        out.append("\\\"");
        proof { reveal_strlit("\\\""); }
    } else if c == '\\' {
        out.append("\\\\");
        proof { reveal_strlit("\\\\"); }
    } else if c == '\n' {
        out.append("\\n");
        proof { reveal_strlit("\\n"); }
    } else if c == '\r' {
        out.append("\\r");
        proof { reveal_strlit("\\r"); }
    } else if c == '\t' {
        out.append("\\t");
        proof { reveal_strlit("\\t"); }
    } else if c == '\x08' {
        out.append("\\b");
        proof { reveal_strlit("\\b"); }
    } else if c == '\x0c' {
        out.append("\\f");
        proof { reveal_strlit("\\f"); }
    } else if (c as u32) < 0x20 {
        proof {
            reveal_strlit("\\u00");
            reveal_strlit("0123456789abcdef");
        }
        let code = c as u32;
        out.append("\\u00");
        out.append(digit_text("0123456789abcdef", (code / 16) as usize));
        out.append(digit_text("0123456789abcdef", (code % 16) as usize));
    } else {
        let one = s.substring_char(i, i + 1);
        assert(one@ =~= seq![c]);
        out.append(one);
    }
    assert(final(out)@ =~= old(out)@ + escaped_char(s@[i as int]));
}

/// `s` escaped for use inside a JSON string.
pub fn json_escape(s: &str) -> (res: String)
    ensures
        res@ == json_escaped(s@),
        json_unescaped(res@) == Some(s@),
{
    proof {
        unescaping_undoes_escaping(s@);
    }
    let n = s.unicode_len();
    let mut res = String::new();
    let mut i: usize = 0;
    while i < n
        invariant
            n == s@.len(),
            i <= n,
            res@ == json_escaped(s@.take(i as int)),
        decreases n - i,
    {
        assert(s@.take(i + 1).drop_last() =~= s@.take(i as int));
        push_escaped(&mut res, s, i);
        i = i + 1;
    }
    assert(s@.take(n as int) =~= s@);
    res
}


/// The line that reports the number of files a scan found.
pub open spec fn scan_line(total: nat) -> Seq<char> {
    "{\"event\":\"scan\",\"total\":"@ + decimal_text(total) + "}"@
}

/// The line that reports a converted file and the size of its image.
pub open spec fn converted_line(rel: Seq<char>, width: nat, height: nat) -> Seq<char> {
    "{\"event\":\"file\",\"ok\":true,\"rel\":\""@ + json_escaped(rel) + "\",\"width\":"@
        + decimal_text(width) + ",\"height\":"@ + decimal_text(height) + "}"@
}

/// The line that reports a file that a dry run would convert.
pub open spec fn planned_line(rel: Seq<char>) -> Seq<char> {
    "{\"event\":\"file\",\"ok\":true,\"rel\":\""@ + json_escaped(rel) + "\"}"@
}

/// The line that reports a file that was skipped or failed, and why.
pub open spec fn not_converted_line(rel: Seq<char>, reason: Seq<char>) -> Seq<char> {
    "{\"event\":\"file\",\"ok\":false,\"rel\":\""@ + json_escaped(rel) + "\",\"reason\":\""@ + reason
        + "\"}"@
}

/// The line that reports the totals of a run.
pub open spec fn done_line(success: nat, skipped: nat, failed: nat) -> Seq<char> {
    "{\"event\":\"done\",\"success\":"@ + decimal_text(success) + ",\"skipped\":"@ + decimal_text(skipped)
        + ",\"failed\":"@ + decimal_text(failed) + "}"@
}

/// The reason given for a file that was not converted: "exists" for a target
/// that was kept, the stage for a failure.
pub open spec fn reason_text(r: FileResult) -> Seq<char> {
    match r.status {
        Status::Exists => "exists"@,
        _ => match r.fail_reason {
            Some(reason) => reason.label(),
            None => "decode"@,
        },
    }
}

/// The reason given for a file skipped for its extension.
pub open spec fn unsupported_reason() -> Seq<char> {
    "unsupported"@
}

pub fn scan_event(total: u64) -> (res: String)
    ensures
        res@ == scan_line(total as nat),
{
    let mut s = String::from_str("{\"event\":\"scan\",\"total\":");
    let n = decimal(total);
    s.append(n.as_str());
    s.append("}");
    s
}

/// The line for a file: with the size of its image when it was converted,
/// with the reason otherwise.
pub fn file_event(rel: &str, r: &FileResult) -> (res: String)
    ensures
        res@ == if r.status == Status::Done {
            converted_line(rel@, r.width as nat, r.height as nat)
        } else {
            not_converted_line(rel@, reason_text(*r))
        },
{
    let esc = json_escape(rel);
    let mut s = String::from_str("{\"event\":\"file\",\"ok\":");
    if r.status == Status::Done {
        s.append("true,\"rel\":\"");
        s.append(esc.as_str());
        s.append("\",\"width\":");
        let w = decimal(r.width as u64);
        s.append(w.as_str());
        s.append(",\"height\":");
        let h = decimal(r.height as u64);
        s.append(h.as_str());
        s.append("}");
        proof {
            reveal_strlit("{\"event\":\"file\",\"ok\":");
            reveal_strlit("true,\"rel\":\"");
            reveal_strlit("{\"event\":\"file\",\"ok\":true,\"rel\":\"");
        }
        assert(s@ =~= converted_line(rel@, r.width as nat, r.height as nat));
    } else {
        s.append("false,\"rel\":\"");
        s.append(esc.as_str());
        s.append("\",\"reason\":\"");
        let reason = if r.status == Status::Exists {
            "exists"
        } else {
            match r.fail_reason {
                Some(fr) => fr.as_str(),
                None => "decode",
            }
        };
        s.append(reason);
        s.append("\"}");
        proof {
            reveal_strlit("{\"event\":\"file\",\"ok\":");
            reveal_strlit("false,\"rel\":\"");
            reveal_strlit("{\"event\":\"file\",\"ok\":false,\"rel\":\"");
        }
        assert(s@ =~= not_converted_line(rel@, reason_text(*r)));
    }
    s
}

/// The line for a file skipped for its extension.
pub fn unsupported_event(rel: &str) -> (res: String)
    ensures
        res@ == not_converted_line(rel@, unsupported_reason()),
{
    let esc = json_escape(rel);
    let mut s = String::from_str("{\"event\":\"file\",\"ok\":false,\"rel\":\"");
    s.append(esc.as_str());
    s.append("\",\"reason\":\"");
    s.append("unsupported");
    s.append("\"}");
    s
}

/// The line for a file that a dry run would convert.
pub fn planned_event(rel: &str) -> (res: String)
    ensures
        res@ == planned_line(rel@),
{
    let esc = json_escape(rel);
    let mut s = String::from_str("{\"event\":\"file\",\"ok\":true,\"rel\":\"");
    s.append(esc.as_str());
    s.append("\"}");
    s
}

pub fn done_event(success: u64, skipped: u64, failed: u64) -> (res: String)
    ensures
        res@ == done_line(success as nat, skipped as nat, failed as nat),
{
    let mut s = String::from_str("{\"event\":\"done\",\"success\":");
    let a = decimal(success);
    s.append(a.as_str());
    s.append(",\"skipped\":");
    let b = decimal(skipped);
    s.append(b.as_str());
    s.append(",\"failed\":");
    let c = decimal(failed);
    s.append(c.as_str());
    s.append("}");
    s
}

/// The number of skipped files of a run: those whose target existed and those
/// skipped for their extension; `None` where that does not fit in a `u64`.
pub fn skipped_total(t: &Tally, counts: &ScanCounts) -> (res: Option<u64>)
    ensures
        res == (if t.skipped_exists + counts.skipped_ext <= u64::MAX {
            Some((t.skipped_exists + counts.skipped_ext) as u64)
        } else {
            None
        }),
{
    t.skipped_exists.checked_add(counts.skipped_ext as u64)
}

} // verus!
