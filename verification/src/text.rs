//! Verified text building blocks: percent-encoding for URL query components,
//! decimal rendering of integers, and small string predicates.

use vstd::prelude::*;
use vstd::string::*;

verus! {

/// Characters that a query component keeps as-is (RFC 3986 unreserved set).
pub open spec fn is_unreserved(c: char) -> bool {
    ('a' <= c && c <= 'z') || ('A' <= c && c <= 'Z') || ('0' <= c && c <= '9') || c == '-' || c
        == '.' || c == '_' || c == '~'
}

/// The upper-case hexadecimal digit for `d` in `0..16`.
pub open spec fn hex_upper(d: int) -> char {
    if d == 0 {
        '0'
    } else if d == 1 {
        '1'
    } else if d == 2 {
        '2'
    } else if d == 3 {
        '3'
    } else if d == 4 {
        '4'
    } else if d == 5 {
        '5'
    } else if d == 6 {
        '6'
    } else if d == 7 {
        '7'
    } else if d == 8 {
        '8'
    } else if d == 9 {
        '9'
    } else if d == 10 {
        'A'
    } else if d == 11 {
        'B'
    } else if d == 12 {
        'C'
    } else if d == 13 {
        'D'
    } else if d == 14 {
        'E'
    } else {
        'F'
    }
}

/// How one character is encoded: unreserved characters stand unchanged, other
/// ASCII characters become a `%XX` escape, and characters beyond ASCII are
/// passed through unchanged (the flow only ever encodes ASCII configuration).
pub open spec fn enc_char(c: char) -> Seq<char> {
    if is_unreserved(c) || c as int >= 128 {
        seq![c]
    } else {
        seq!['%', hex_upper(c as int / 16), hex_upper(c as int % 16)]
    }
}

/// The percent-encoding of a whole character sequence.
pub open spec fn percent_encoded(s: Seq<char>) -> Seq<char>
    decreases s.len(),
{
    if s.len() == 0 {
        Seq::empty()
    } else {
        enc_char(s[0]) + percent_encoded(s.drop_first())
    }
}

pub proof fn lemma_percent_encoded_push(s: Seq<char>, c: char)
    ensures
        percent_encoded(s.push(c)) == percent_encoded(s) + enc_char(c),
    decreases s.len(),
{
    if s.len() == 0 {
        assert(s.push(c).drop_first() =~= Seq::<char>::empty());
        assert(s.push(c)[0] == c);
        assert(percent_encoded(s.push(c)) == enc_char(c) + percent_encoded(
            s.push(c).drop_first(),
        ));
        assert(percent_encoded(s.push(c)) =~= percent_encoded(s) + enc_char(c));
    } else {
        assert(s.push(c).drop_first() =~= s.drop_first().push(c));
        assert(s.push(c)[0] == s[0]);
        lemma_percent_encoded_push(s.drop_first(), c);
        assert(percent_encoded(s.push(c)) == enc_char(s[0]) + (percent_encoded(s.drop_first())
            + enc_char(c)));
        assert(enc_char(s[0]) + (percent_encoded(s.drop_first()) + enc_char(c)) =~= (enc_char(s[0])
            + percent_encoded(s.drop_first())) + enc_char(c));
    }
}

/// Encoding never shortens: every character yields at least one output character.
pub proof fn lemma_percent_encoded_len(s: Seq<char>)
    ensures
        percent_encoded(s).len() >= s.len(),
    decreases s.len(),
{
    if s.len() > 0 {
        lemma_percent_encoded_len(s.drop_first());
    }
}

/// The single-character string holding the hexadecimal digit for `d`.
fn hex_str(d: u8) -> (r: &'static str)
    requires
        d < 16,
    ensures
        r@ == seq![hex_upper(d as int)],
{
    let table = "0123456789ABCDEF";
    proof {
        reveal_strlit("0123456789ABCDEF");
        assert(table@.len() == 16);
    }
    let r = table.substring_ascii(d as usize, d as usize + 1);
    proof {
        assert(r@ =~= seq![hex_upper(d as int)]);
    }
    r
}

/// Percent-encode `s` for use as a URL query component.
pub fn url_encode(s: &str) -> (r: String)
    ensures
        r@ == percent_encoded(s@),
{
    let n = s.unicode_len();
    let mut out = String::new();
    let mut i: usize = 0;
    while i < n
        invariant
            i <= n,
            n == s@.len(),
            out@ == percent_encoded(s@.take(i as int)),
        decreases n - i,
    {
        let c = s.get_char(i);
        proof {
            lemma_percent_encoded_push(s@.take(i as int), c);
            assert(s@.take(i as int + 1) =~= s@.take(i as int).push(c));
        }
        let keep = (c >= 'a' && c <= 'z') || (c >= 'A' && c <= 'Z') || (c >= '0' && c <= '9') || c
            == '-' || c == '.' || c == '_' || c == '~' || (c as u32) >= 128;
        if keep {
            let piece = s.substring_char(i, i + 1);
            proof {
                assert(piece@ =~= enc_char(c));
            }
            out.append(piece);
        } else {
            let b = c as u8;
            proof {
                reveal_strlit("%");
                assert(b == c as int);
            }
            out.append("%");
            out.append(hex_str(b / 16));
            out.append(hex_str(b % 16));
            proof {
                assert(out@ =~= percent_encoded(s@.take(i as int)) + enc_char(c));
            }
        }
        i = i + 1;
    }
    proof {
        assert(s@.take(n as int) =~= s@);
    }
    out
}

/// The decimal digits of `n`, most significant first.
pub open spec fn dec_rep(n: nat) -> Seq<char>
    decreases n,
{
    if n < 10 {
        seq![hex_upper(n as int)]
    } else {
        dec_rep(n / 10) + seq![hex_upper(n as int % 10)]
    }
}

/// The decimal rendering of a signed integer: a minus sign before the digits
/// of the magnitude when negative.
pub open spec fn int_rep(i: int) -> Seq<char> {
    if i >= 0 {
        dec_rep(i as nat)
    } else {
        seq!['-'] + dec_rep((-i) as nat)
    }
}

pub fn u64_to_string(n: u64) -> (r: String)
    ensures
        r@ == dec_rep(n as nat),
    decreases n,
{
    if n < 10 {
        hex_str(n as u8).to_owned()
    } else {
        let front = u64_to_string(n / 10);
        front.concat(hex_str((n % 10) as u8))
    }
}

pub fn i64_to_string(n: i64) -> (r: String)
    ensures
        r@ == int_rep(n as int),
{
    if n >= 0 {
        u64_to_string(n as u64)
    } else {
        let mag: u64 = if n == i64::MIN {
            9223372036854775808u64
        } else {
            (-n) as u64
        };
        proof {
            assert(mag == -(n as int));
            reveal_strlit("-");
        }
        String::from_str("-").concat(u64_to_string(mag).as_str())
    }
}

/// Whether `prefix` stands at the start of `s`.
pub fn str_starts_with(s: &str, prefix: &str) -> (r: bool)
    ensures
        r == prefix@.is_prefix_of(s@),
{
    let np = prefix.unicode_len();
    let ns = s.unicode_len();
    if np > ns {
        return false;
    }
    let mut i: usize = 0;
    while i < np
        invariant
            i <= np,
            np <= ns,
            np == prefix@.len(),
            ns == s@.len(),
            forall|j: int| 0 <= j < i ==> s@[j] == prefix@[j],
        decreases np - i,
    {
        if s.get_char(i) != prefix.get_char(i) {
            return false;
        }
        i = i + 1;
    }
    true
}

/// Whether the character `c` occurs in `s`.
pub fn str_contains_char(s: &str, c: char) -> (r: bool)
    ensures
        r == s@.contains(c),
{
    let n = s.unicode_len();
    let mut i: usize = 0;
    while i < n
        invariant
            i <= n,
            n == s@.len(),
            forall|j: int| 0 <= j < i ==> s@[j] != c,
        decreases n - i,
    {
        if s.get_char(i) == c {
            return true;
        }
        i = i + 1;
    }
    false
}

/// The parts joined with a single space between neighbours.
pub open spec fn join_spaced(parts: Seq<Seq<char>>) -> Seq<char>
    decreases parts.len(),
{
    if parts.len() == 0 {
        Seq::empty()
    } else if parts.len() == 1 {
        parts[0]
    } else {
        parts[0] + seq![' '] + join_spaced(parts.drop_first())
    }
}

/// The join is at least as long as its first part.
pub proof fn lemma_join_spaced_len(parts: Seq<Seq<char>>)
    requires
        parts.len() > 0,
    ensures
        join_spaced(parts).len() >= parts[0].len(),
{
}

fn join_tail(parts: &Vec<String>, from: usize) -> (r: String)
    requires
        from <= parts@.len(),
    ensures
        r@ == join_spaced(parts.deep_view().skip(from as int)),
    decreases parts@.len() - from,
{
    let n = parts.len();
    if from == n {
        proof {
            assert(parts.deep_view().skip(from as int) =~= Seq::<Seq<char>>::empty());
        }
        String::new()
    } else if from + 1 == n {
        proof {
            assert(parts.deep_view().skip(from as int).len() == 1);
            assert(parts.deep_view().skip(from as int)[0] == parts@[from as int]@);
        }
        parts[from].clone()
    } else {
        let rest = join_tail(parts, from + 1);
        let r = parts[from].clone().concat(" ").concat(rest.as_str());
        proof {
            reveal_strlit(" ");
            let ghost tail = parts.deep_view().skip(from as int);
            assert(tail[0] == parts@[from as int]@);
            assert(tail.drop_first() =~= parts.deep_view().skip(from as int + 1));
            assert(r@ =~= join_spaced(tail));
        }
        r
    }
}

/// Join the strings with single spaces, in order.
pub fn join_with_spaces(parts: &Vec<String>) -> (r: String)
    ensures
        r@ == join_spaced(parts.deep_view()),
{
    let r = join_tail(parts, 0);
    proof {
        assert(parts.deep_view().skip(0) =~= parts.deep_view());
    }
    r
}

/// Whether two string slices hold the same characters.
pub fn str_eq(a: &str, b: &str) -> (r: bool)
    ensures
        r == (a@ == b@),
{
    let na = a.unicode_len();
    let nb = b.unicode_len();
    if na != nb {
        return false;
    }
    let mut i: usize = 0;
    while i < na
        invariant
            i <= na,
            na == a@.len(),
            na == b@.len(),
            forall|j: int| 0 <= j < i ==> a@[j] == b@[j],
        decreases na - i,
    {
        if a.get_char(i) != b.get_char(i) {
            return false;
        }
        i = i + 1;
    }
    proof {
        assert(a@ =~= b@);
    }
    true
}

/// Copy an optional string slice into an owned optional string.
pub fn opt_str_to_owned(o: Option<&str>) -> (r: Option<String>)
    ensures
        match o {
            Some(s) => r matches Some(x) && x@ == s@,
            None => r is None,
        },
{
    match o {
        Some(s) => Some(s.to_owned()),
        None => None,
    }
}

/// Clone an optional string, field for field.
pub fn clone_opt_string(o: &Option<String>) -> (r: Option<String>)
    ensures
        r == *o,
{
    match o {
        Some(s) => Some(s.clone()),
        None => None,
    }
}

} // verus!
