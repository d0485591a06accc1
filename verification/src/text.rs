//! Small text utilities over `&str` and `String`, stated over `Seq<char>`.

use vstd::prelude::*;

verus! {

/// Whether two strings hold the same characters.
pub fn same_text(a: &str, b: &str) -> (res: bool)
    ensures
        res == (a@ == b@),
{
    let n = a.unicode_len();
    let m = b.unicode_len();
    if n != m {
        return false;
    }
    let mut i: usize = 0;
    while i < n
        invariant
            n == a@.len(),
            m == b@.len(),
            n == m,
            i <= n,
            forall|j: int| 0 <= j < i ==> a@[j] == b@[j],
        decreases n - i,
    {
        if a.get_char(i) != b.get_char(i) {
            return false;
        }
        i += 1;
    }
    assert(a@ =~= b@);
    true
}


/// `c` with an ASCII upper-case letter mapped to its lower-case letter.
pub open spec fn lower_char(c: char) -> char {
    if 'A' <= c && c <= 'Z' {
        ((c as u32) + 32) as char
    } else {
        c
    }
}

/// `s` with each ASCII upper-case letter mapped to lower case.
pub open spec fn ascii_lower(s: Seq<char>) -> Seq<char> {
    s.map_values(|c: char| lower_char(c))
}

/// `c` and `d` are the same character up to ASCII case: equal, or an
/// upper-case letter and the letter 32 code points above it.
pub open spec fn same_up_to_case(c: char, d: char) -> bool {
    ||| c == d
    ||| 'A' <= c <= 'Z' && (d as u32) == (c as u32) + 32
    ||| 'A' <= d <= 'Z' && (c as u32) == (d as u32) + 32
}

/// Lower-casing keeps the length, turns each upper-case ASCII letter into
/// the lower-case letter 32 code points above it, leaves every other
/// character as it is, and leaves no upper-case ASCII letter behind.
pub proof fn lowering_maps_each_capital_to_its_small_letter(s: Seq<char>)
    ensures
        ascii_lower(s).len() == s.len(),
        forall|i: int| 0 <= i < s.len() && 'A' <= #[trigger] s[i] <= 'Z' ==> {
            &&& (ascii_lower(s)[i] as u32) == (s[i] as u32) + 32
            &&& 'a' <= ascii_lower(s)[i] <= 'z'
        },
        forall|i: int| 0 <= i < s.len() && !('A' <= #[trigger] s[i] <= 'Z') ==> ascii_lower(s)[i] == s[i],
        forall|i: int| 0 <= i < s.len() ==> !('A' <= #[trigger] ascii_lower(s)[i] <= 'Z'),
{
    assert forall|i: int| 0 <= i < s.len() implies !('A' <= #[trigger] ascii_lower(s)[i] <= 'Z') by {
        let c = s[i];
        if 'A' <= c <= 'Z' {
            assert((ascii_lower(s)[i] as u32) == (c as u32) + 32);
        }
    }
}

/// Two texts that differ only in ASCII case lower-case to the same text.
pub proof fn lowering_ignores_case(a: Seq<char>, b: Seq<char>)
    requires
        a.len() == b.len(),
        forall|i: int| 0 <= i < a.len() ==> same_up_to_case(#[trigger] a[i], b[i]),
    ensures
        ascii_lower(a) == ascii_lower(b),
{
    assert forall|i: int| 0 <= i < a.len() implies #[trigger] ascii_lower(a)[i] == ascii_lower(b)[i] by {
        let c = a[i];
        let d = b[i];
        assert(same_up_to_case(c, d));
        if 'A' <= c <= 'Z' && (d as u32) == (c as u32) + 32 {
            assert(ascii_lower(a)[i] == ((c as u32) + 32) as char);
            vstd::utf8::char_u32_cast(d, ((c as u32) + 32) as u32);
            assert(d == ((c as u32) + 32) as char);
        } else if 'A' <= d <= 'Z' && (c as u32) == (d as u32) + 32 {
            vstd::utf8::char_u32_cast(c, ((d as u32) + 32) as u32);
            assert(c == ((d as u32) + 32) as char);
        }
    }
    assert(ascii_lower(a) =~= ascii_lower(b));
}

/// `s` with each ASCII upper-case letter mapped to lower case, as
/// `str::to_ascii_lowercase` gives it.
pub fn ascii_lowercase(s: &str) -> (res: String)
    ensures
        res@ == ascii_lower(s@),
        res@.len() == s@.len(),
        forall|i: int| 0 <= i < s@.len() && 'A' <= #[trigger] s@[i] <= 'Z' ==> (res@[i] as u32) == (s@[i] as u32) + 32,
        forall|i: int| 0 <= i < s@.len() && !('A' <= #[trigger] s@[i] <= 'Z') ==> res@[i] == s@[i],
{
    proof {
        lowering_maps_each_capital_to_its_small_letter(s@);
    }
    let ghost letters = "abcdefghijklmnopqrstuvwxyz"@;
    proof {
        reveal_strlit("abcdefghijklmnopqrstuvwxyz");
        assert forall|k: int| 0 <= k < 26 implies #[trigger] letters[k] == ((k + 97) as char) by {
            assert(letters == seq!['a', 'b', 'c', 'd', 'e', 'f', 'g', 'h', 'i', 'j', 'k', 'l', 'm',
                'n', 'o', 'p', 'q', 'r', 's', 't', 'u', 'v', 'w', 'x', 'y', 'z']);
        }
    }
    let n = s.unicode_len();
    let mut res = String::new();
    let mut i: usize = 0;
    while i < n
        invariant
            n == s@.len(),
            i <= n,
            letters == "abcdefghijklmnopqrstuvwxyz"@,
            letters.len() == 26,
            forall|k: int| 0 <= k < 26 ==> #[trigger] letters[k] == ((k + 97) as char),
            res@ == ascii_lower(s@.take(i as int)),
        decreases n - i,
    {
        let c = s.get_char(i);
        let ghost before = res@;
        if 'A' <= c && c <= 'Z' {
            let k = (c as u32 - 65) as usize;
            let one = "abcdefghijklmnopqrstuvwxyz".substring_char(k, k + 1);
            assert(one@ =~= seq![letters[k as int]]);
            res.append(one);
        } else {
            let one = s.substring_char(i, i + 1);
            assert(one@ =~= seq![c]);
            res.append(one);
        }
        assert(res@ =~= ascii_lower(s@.take(i + 1))) by {
            assert(s@.take(i + 1) =~= s@.take(i as int).push(c));
        }
        i = i + 1;
    }
    assert(s@.take(n as int) =~= s@);
    res
}

/// The concatenation of `a` and `b`.
pub fn concat2(a: &str, b: &str) -> (res: String)
    ensures
        res@ == a@ + b@,
{
    let mut s = String::from_str(a);
    s.append(b);
    s
}

/// The concatenation of `a`, `b`, `c` and `d`.
pub fn concat4(a: &str, b: &str, c: &str, d: &str) -> (res: String)
    ensures
        res@ == a@ + b@ + c@ + d@,
{
    let mut s = String::from_str(a);
    s.append(b);
    s.append(c);
    s.append(d);
    s
}

/// The items of `list` with `sep` between each two of them.
pub open spec fn joined(list: Seq<Seq<char>>, sep: Seq<char>) -> Seq<char>
    decreases list.len(),
{
    if list.len() == 0 {
        Seq::empty()
    } else if list.len() == 1 {
        list[0]
    } else {
        joined(list.drop_last(), sep) + sep + list.last()
    }
}

/// The texts of `parts` with `sep` between each two of them.
pub fn join_texts(parts: &Vec<String>, sep: &str) -> (res: String)
    ensures
        res@ == joined(parts@.map_values(|p: String| p@), sep@),
{
    let ghost list = parts@.map_values(|p: String| p@);
    let mut res = String::new();
    let mut i: usize = 0;
    while i < parts.len()
        invariant
            i <= parts@.len(),
            list == parts@.map_values(|p: String| p@),
            res@ == joined(list.take(i as int), sep@),
        decreases parts@.len() - i,
    {
        assert(list.take(i + 1).drop_last() =~= list.take(i as int));
        if i != 0 {
            res.append(sep);
        } else {
            assert(res@ =~= Seq::<char>::empty());
        }
        res.append(parts[i].as_str());
        assert(list[i as int] == parts@[i as int]@);
        i = i + 1;
    }
    assert(list.take(parts@.len() as int) =~= list);
    res
}

} // verus!
