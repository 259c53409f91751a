//! Verified string utilities: substring search, prefix tests, character
//! classes and decimal rendering, all specified over `Seq<char>` views.

use vstd::prelude::*;

verus! {

/// `p` occurs somewhere in `t` (the empty pattern occurs everywhere).
pub open spec fn spec_contains(t: Seq<char>, p: Seq<char>) -> bool {
    exists|i: int| 0 <= i && i + p.len() <= t.len() && #[trigger] t.subrange(i, i + p.len()) == p
}

/// `t` begins with `p`.
pub open spec fn spec_starts_with(t: Seq<char>, p: Seq<char>) -> bool {
    p.len() <= t.len() && t.subrange(0, p.len() as int) == p
}

/// `c` occurs in `s`.
pub open spec fn spec_has_char(s: Seq<char>, c: char) -> bool {
    exists|i: int| 0 <= i < s.len() && s[i] == c
}

/// `s` holds an embedded null character.
pub open spec fn spec_has_null(s: Seq<char>) -> bool {
    spec_has_char(s, '\0')
}

/// The Unicode `White_Space` code points, the set that `str::trim` strips.
pub open spec fn is_space_char(c: char) -> bool {
    let u = c as u32;
    (9 <= u && u <= 13) || u == 0x20 || u == 0x85 || u == 0xa0 || u == 0x1680
        || (0x2000 <= u && u <= 0x200a) || u == 0x2028 || u == 0x2029 || u == 0x202f
        || u == 0x205f || u == 0x3000
}

/// `s` trims to nothing: every character is white space.
pub open spec fn spec_blank(s: Seq<char>) -> bool {
    forall|i: int| 0 <= i < s.len() ==> is_space_char(#[trigger] s[i])
}

/// An ASCII hexadecimal digit.
pub open spec fn is_hex_digit_char(c: char) -> bool {
    let u = c as u32;
    (0x30 <= u && u <= 0x39) || (0x61 <= u && u <= 0x66) || (0x41 <= u && u <= 0x46)
}

/// Whether `t` carries `p` starting at position `i`.
fn matches_at(t: &str, tlen: usize, p: &str, plen: usize, i: usize) -> (r: bool)
    requires
        tlen == t@.len(),
        plen == p@.len(),
        i + plen <= tlen,
    ensures
        r == (t@.subrange(i as int, i as int + plen as int) == p@),
{
    let mut j: usize = 0;
    while j < plen
        invariant
            tlen == t@.len(),
            plen == p@.len(),
            i + plen <= tlen,
            j <= plen,
            forall|k: int| 0 <= k < j ==> t@[i + k] == p@[k],
        decreases plen - j,
    {
        if t.get_char(i + j) != p.get_char(j) {
            assert(t@.subrange(i as int, i as int + plen as int)[j as int] == t@[i + j]);
            return false;
        }
        j += 1;
    }
    assert(t@.subrange(i as int, i as int + plen as int) =~= p@);
    true
}

/// Substring search; the executable counterpart of [`spec_contains`].
pub fn contains_str(t: &str, p: &str) -> (r: bool)
    ensures
        r == spec_contains(t@, p@),
{
    let tlen = t.unicode_len();
    let plen = p.unicode_len();
    if plen > tlen {
        return false;
    }
    if plen == 0 {
        assert(spec_contains(t@, p@)) by {
            assert(t@.subrange(0, 0 + p@.len() as int) =~= p@);
        }
        return true;
    }
    let mut i: usize = 0;
    while i <= tlen - plen
        invariant
            tlen == t@.len(),
            plen == p@.len(),
            0 < plen <= tlen,
            i <= tlen - plen + 1,
            forall|k: int| 0 <= k < i ==> #[trigger] t@.subrange(k, k + plen as int) != p@,
        decreases tlen - i,
    {
        if matches_at(t, tlen, p, plen, i) {
            return true;
        }
        i += 1;
    }
    false
}

/// Character-for-character string equality on views.
pub fn str_eq(a: &str, b: &str) -> (r: bool)
    ensures
        r == (a@ == b@),
{
    let alen = a.unicode_len();
    let blen = b.unicode_len();
    if alen != blen {
        return false;
    }
    let mut i: usize = 0;
    while i < alen
        invariant
            alen == a@.len(),
            alen == b@.len(),
            i <= alen,
            forall|k: int| 0 <= k < i ==> a@[k] == b@[k],
        decreases alen - i,
    {
        if a.get_char(i) != b.get_char(i) {
            return false;
        }
        i += 1;
    }
    assert(a@ =~= b@);
    true
}

/// Prefix test; the executable counterpart of [`spec_starts_with`].
pub fn starts_with_str(t: &str, p: &str) -> (r: bool)
    ensures
        r == spec_starts_with(t@, p@),
{
    let tlen = t.unicode_len();
    let plen = p.unicode_len();
    if plen > tlen {
        return false;
    }
    matches_at(t, tlen, p, plen, 0)
}

/// Number of non-overlapping occurrences of `p` in `t` from position `i` on,
/// scanning left to right and skipping past each match, as `str::matches`
/// counts them.
pub open spec fn spec_count_matches(t: Seq<char>, p: Seq<char>, i: int) -> nat
    decreases t.len() - i,
    when 0 <= i && p.len() > 0
{
    if i + p.len() > t.len() {
        0
    } else if t.subrange(i, i + p.len()) == p {
        1 + spec_count_matches(t, p, i + p.len())
    } else {
        spec_count_matches(t, p, i + 1)
    }
}

/// Counts non-overlapping occurrences of `p` in `t`.
pub fn count_occurrences(t: &str, p: &str) -> (r: usize)
    requires
        p@.len() > 0,
    ensures
        r == spec_count_matches(t@, p@, 0),
{
    let tlen = t.unicode_len();
    let plen = p.unicode_len();
    if plen > tlen {
        return 0;
    }
    let mut i: usize = 0;
    let mut c: usize = 0;
    while i <= tlen - plen
        invariant
            tlen == t@.len(),
            plen == p@.len(),
            0 < plen <= tlen,
            i <= tlen,
            c <= i,
            c + spec_count_matches(t@, p@, i as int) == spec_count_matches(t@, p@, 0),
        decreases tlen - i,
    {
        if matches_at(t, tlen, p, plen, i) {
            c += 1;
            i += plen;
        } else {
            i += 1;
        }
    }
    c
}

/// Whether every character of `s` is white space, so that `s` trims to the
/// empty string (true of the empty string itself).
pub fn is_blank(s: &str) -> (r: bool)
    ensures
        r == spec_blank(s@),
{
    let len = s.unicode_len();
    let mut i: usize = 0;
    while i < len
        invariant
            len == s@.len(),
            i <= len,
            forall|k: int| 0 <= k < i ==> is_space_char(#[trigger] s@[k]),
        decreases len - i,
    {
        let c = s.get_char(i);
        let u = c as u32;
        let space = (9 <= u && u <= 13) || u == 0x20 || u == 0x85 || u == 0xa0 || u == 0x1680
            || (0x2000 <= u && u <= 0x200a) || u == 0x2028 || u == 0x2029 || u == 0x202f
            || u == 0x205f || u == 0x3000;
        if !space {
            return false;
        }
        i += 1;
    }
    true
}

/// Whether `c` occurs in `s`.
pub fn has_char(s: &str, c: char) -> (r: bool)
    ensures
        r == spec_has_char(s@, c),
{
    let len = s.unicode_len();
    let mut i: usize = 0;
    while i < len
        invariant
            len == s@.len(),
            i <= len,
            forall|k: int| 0 <= k < i ==> s@[k] != c,
        decreases len - i,
    {
        if s.get_char(i) == c {
            return true;
        }
        i += 1;
    }
    false
}

/// Whether `s` holds an embedded null character.
pub fn has_null(s: &str) -> (r: bool)
    ensures
        r == spec_has_null(s@),
{
    has_char(s, '\0')
}

/// The character for one decimal digit.
pub open spec fn digit_char(d: nat) -> char {
    if d == 0 {
        '0'
    } else if d == 1 {
        '1'
    } else if d == 2 {
        '2'
    } else if d == 3 {
        '3'
    } else if d == 4 {
        '4'
    } else if d == 5 {
        '5'
    } else if d == 6 {
        '6'
    } else if d == 7 {
        '7'
    } else if d == 8 {
        '8'
    } else {
        '9'
    }
}

/// The usual decimal rendering of `n`, most significant digit first.
pub open spec fn spec_decimal(n: nat) -> Seq<char>
    decreases n,
{
    if n < 10 {
        seq![digit_char(n)]
    } else {
        spec_decimal(n / 10).push(digit_char(n % 10))
    }
}

fn digit_str(d: usize) -> (r: &'static str)
    requires
        d < 10,
    ensures
        r@ =~= seq![digit_char(d as nat)],
{
    proof {
        reveal_strlit("0");
        reveal_strlit("1");
        reveal_strlit("2");
        reveal_strlit("3");
        reveal_strlit("4");
        reveal_strlit("5");
        reveal_strlit("6");
        reveal_strlit("7");
        reveal_strlit("8");
        reveal_strlit("9");
    }
    if d == 0 {
        "0"
    } else if d == 1 {
        "1"
    } else if d == 2 {
        "2"
    } else if d == 3 {
        "3"
    } else if d == 4 {
        "4"
    } else if d == 5 {
        "5"
    } else if d == 6 {
        "6"
    } else if d == 7 {
        "7"
    } else if d == 8 {
        "8"
    } else {
        "9"
    }
}

/// Renders `n` in decimal.
pub fn usize_to_decimal(n: usize) -> (r: String)
    ensures
        r@ == spec_decimal(n as nat),
    decreases n,
{
    if n < 10 {
        String::from_str(digit_str(n))
    } else {
        let mut s = usize_to_decimal(n / 10);
        s.append(digit_str(n % 10));
        proof {
            assert(spec_decimal((n / 10) as nat).push(digit_char((n % 10) as nat)) =~= spec_decimal(
                (n / 10) as nat,
            ) + seq![digit_char((n % 10) as nat)]);
        }
        s
    }
}


/// What `char::is_alphanumeric` returns: whether `c` is a Unicode letter or
/// number. A function of the character alone.
pub uninterp spec fn unicode_alphanumeric(c: char) -> bool;

/// Relies on char::is_alphanumeric: true exactly of Unicode letters and
/// numbers; within ASCII these are the digits and the two letter ranges.
#[verifier::external_body]
pub(crate) fn char_is_alphanumeric(c: char) -> (r: bool)
    ensures
        r == unicode_alphanumeric(c),
        (c as u32) < 128 ==> r == ((0x30 <= c as u32 && c as u32 <= 0x39) || (0x41 <= c as u32
            && c as u32 <= 0x5a) || (0x61 <= c as u32 && c as u32 <= 0x7a)),
{
    c.is_alphanumeric()
}


/// One line piece with a trailing carriage return removed, as the line
/// iterator of `str` strips it from every piece that a line feed ended.
pub open spec fn strip_cr(l: Seq<char>) -> Seq<char> {
    if l.len() > 0 && l.last() == '\r' {
        l.drop_last()
    } else {
        l
    }
}

/// The lines of the text remaining in `s` when `cur` has been read of the
/// current line so far: pieces split at line feeds, each closed piece with
/// a trailing carriage return stripped, and no final empty piece.
pub open spec fn spec_lines_acc(s: Seq<char>, cur: Seq<char>) -> Seq<Seq<char>>
    decreases s.len(),
{
    if s.len() == 0 {
        if cur.len() > 0 {
            seq![cur]
        } else {
            Seq::empty()
        }
    } else if s[0] == '\n' {
        seq![strip_cr(cur)] + spec_lines_acc(s.drop_first(), Seq::empty())
    } else {
        spec_lines_acc(s.drop_first(), cur.push(s[0]))
    }
}

/// The lines of `s`, as `str::lines` yields them.
pub open spec fn spec_lines(s: Seq<char>) -> Seq<Seq<char>> {
    spec_lines_acc(s, Seq::empty())
}

/// Splits `s` into its lines.
pub fn split_lines(s: &str) -> (r: Vec<String>)
    ensures
        r.deep_view() == spec_lines(s@),
{
    let len = s.unicode_len();
    let mut lines: Vec<String> = Vec::new();
    let mut seg_start: usize = 0;
    let mut i: usize = 0;
    proof {
        assert(s@.skip(0) =~= s@);
        assert(s@.subrange(0, 0) =~= Seq::<char>::empty());
    }
    while i < len
        invariant
            len == s@.len(),
            seg_start <= i <= len,
            spec_lines(s@) == lines.deep_view() + spec_lines_acc(
                s@.skip(i as int),
                s@.subrange(seg_start as int, i as int),
            ),
        decreases len - i,
    {
        let ghost prev_lines = lines.deep_view();
        let ghost cur = s@.subrange(seg_start as int, i as int);
        proof {
            assert(s@.skip(i as int)[0] == s@[i as int]);
            assert(s@.skip(i as int).drop_first() =~= s@.skip(i as int + 1));
        }
        let c = s.get_char(i);
        if c == '\n' {
            let end = if i > seg_start && s.get_char(i - 1) == '\r' {
                i - 1
            } else {
                i
            };
            let piece = s.substring_char(seg_start, end);
            proof {
                assert(piece@ =~= strip_cr(cur));
            }
            lines.push(String::from_str(piece));
            proof {
                assert(lines.deep_view() =~= prev_lines.push(strip_cr(cur)));
                assert(prev_lines.push(strip_cr(cur)) =~= prev_lines + seq![strip_cr(cur)]);
            }
            seg_start = i + 1;
            proof {
                assert(s@.subrange(i as int + 1, i as int + 1) =~= Seq::<char>::empty());
            }
        } else {
            proof {
                assert(s@.subrange(seg_start as int, i as int + 1) =~= cur.push(s@[i as int]));
            }
        }
        i += 1;
    }
    proof {
        assert(s@.skip(len as int) =~= Seq::<char>::empty());
    }
    let ghost prev_lines = lines.deep_view();
    let ghost cur = s@.subrange(seg_start as int, len as int);
    if seg_start < len {
        let piece = s.substring_char(seg_start, len);
        lines.push(String::from_str(piece));
        proof {
            assert(lines.deep_view() =~= prev_lines.push(cur));
            assert(prev_lines.push(cur) =~= prev_lines + seq![cur]);
        }
    } else {
        proof {
            assert(lines.deep_view() + Seq::<Seq<char>>::empty() =~= lines.deep_view());
        }
    }
    lines
}

} // verus!


