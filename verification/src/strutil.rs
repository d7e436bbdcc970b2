//! Character and string helpers shared by the tag parser, the peer
//! filter and the configuration synthesizer. All of them work on
//! `Seq<char>` views, character by character.

use vstd::prelude::*;
use vstd::string::StrSliceExecFns;

verus! {

/// What Unicode lower-casing, as `str::to_lowercase` performs it,
/// makes of a string.
pub uninterp spec fn lower_of(s: Seq<char>) -> Seq<char>;

/// Relies on str::to_lowercase: the lower-case form depends on the
/// characters alone, and an empty string stays empty.
#[verifier::external_body]
pub(crate) fn to_lowercase(s: &str) -> (r: String)
    ensures
        r@ == lower_of(s@),
        s@.len() == 0 ==> r@.len() == 0,
{
    s.to_lowercase()
}

/// The character replacement of hostname sanitizing: `.` and `_`
/// become `-`, everything else is unchanged.
pub open spec fn dash_char(c: char) -> char {
    if c == '.' || c == '_' {
        '-'
    } else {
        c
    }
}

/// The sanitized form of a hostname: lower-cased, with `.` and `_`
/// replaced by `-`.
pub open spec fn sanitize_seq(s: Seq<char>) -> Seq<char> {
    Seq::new(lower_of(s).len(), |i: int| dash_char(lower_of(s)[i]))
}

/// Relies on String::push: appends exactly one character at the end.
#[verifier::external_body]
fn push_char(s: &mut String, c: char)
    ensures
        final(s)@ == old(s)@.push(c),
{
    s.push(c);
}

pub fn char_dash(c: char) -> (r: char)
    ensures
        r == dash_char(c),
{
    if c == '.' || c == '_' {
        '-'
    } else {
        c
    }
}

pub fn sanitize(s: &str) -> (r: String)
    ensures
        r@ == sanitize_seq(s@),
{
    let l = to_lowercase(s);
    let n = l.as_str().unicode_len();
    let mut r = String::new();
    let mut i: usize = 0;
    while i < n
        invariant
            l@ == lower_of(s@),
            n == l@.len(),
            i <= n,
            r@.len() == i,
            forall|j: int| 0 <= j < i ==> r@[j] == dash_char(l@[j]),
        decreases n - i,
    {
        let c = l.as_str().get_char(i);
        push_char(&mut r, char_dash(c));
        i = i + 1;
    }
    assert(r@ =~= sanitize_seq(s@));
    r
}

pub fn str_eq(a: &str, b: &str) -> (r: bool)
    ensures
        r == (a@ == b@),
{
    let na = a.unicode_len();
    let nb = b.unicode_len();
    if na != nb {
        return false;
    }
    let mut i: usize = 0;
    while i < na
        invariant
            na == a@.len(),
            nb == b@.len(),
            na == nb,
            i <= na,
            forall|j: int| 0 <= j < i ==> a@[j] == b@[j],
        decreases na - i,
    {
        if a.get_char(i) != b.get_char(i) {
            return false;
        }
        i = i + 1;
    }
    assert(a@ =~= b@);
    true
}

pub fn string_eq_str(a: &String, b: &str) -> (r: bool)
    ensures
        r == (a@ == b@),
{
    str_eq(a.as_str(), b)
}

/// True when `needle` occurs in `hay` as a contiguous run of characters.
pub open spec fn contains_seq(hay: Seq<char>, needle: Seq<char>) -> bool {
    exists|i: int|
        0 <= i && i + needle.len() <= hay.len() && #[trigger] hay.subrange(i, i + needle.len())
            == needle
}

fn matches_at(hay: &str, needle: &str, at: usize) -> (r: bool)
    requires
        at + needle@.len() <= hay@.len(),
    ensures
        r == (hay@.subrange(at as int, at + needle@.len()) == needle@),
{
    let n = needle.unicode_len();
    let hn = hay.unicode_len();
    let mut j: usize = 0;
    while j < n
        invariant
            n == needle@.len(),
            hn == hay@.len(),
            at + n <= hay@.len(),
            j <= n,
            forall|k: int| 0 <= k < j ==> hay@[at + k] == needle@[k],
        decreases n - j,
    {
        if hay.get_char(at + j) != needle.get_char(j) {
            assert(hay@.subrange(at as int, at + needle@.len())[j as int] != needle@[j as int]);
            return false;
        }
        j = j + 1;
    }
    assert(hay@.subrange(at as int, at + needle@.len()) =~= needle@);
    true
}

pub fn contains_sub(hay: &str, needle: &str) -> (r: bool)
    ensures
        r == contains_seq(hay@, needle@),
{
    let hn = hay.unicode_len();
    let nn = needle.unicode_len();
    if nn > hn {
        assert(!contains_seq(hay@, needle@));
        return false;
    }
    if nn == 0 {
        assert(hay@.subrange(0, 0 + needle@.len() as int) =~= needle@);
        return true;
    }
    let mut i: usize = 0;
    while i <= hn - nn
        invariant
            hn == hay@.len(),
            nn == needle@.len(),
            nn <= hn,
            i <= hn - nn + 1,
            1 <= nn,
            forall|k: int|
                0 <= k < i ==> #[trigger] hay@.subrange(k, k + needle@.len()) != needle@,
        decreases hn - i,
    {
        if matches_at(hay, needle, i) {
            return true;
        }
        i = i + 1;
    }
    assert(forall|k: int|
        0 <= k && k + needle@.len() <= hay@.len() ==> #[trigger] hay@.subrange(k, k
            + needle@.len()) != needle@);
    false
}

/// True when the string carries the `tag:` prefix that the mesh
/// daemon puts in front of every peer tag.
pub open spec fn has_tag_prefix(s: Seq<char>) -> bool {
    s.len() >= 4 && s[0] == 't' && s[1] == 'a' && s[2] == 'g' && s[3] == ':'
}

/// The tag with its `tag:` prefix stripped, if it had one.
pub open spec fn strip_tag_prefix_seq(s: Seq<char>) -> Seq<char> {
    if has_tag_prefix(s) {
        s.subrange(4, s.len() as int)
    } else {
        s
    }
}

pub fn strip_tag_prefix(s: &str) -> (r: &str)
    ensures
        r@ == strip_tag_prefix_seq(s@),
{
    let n = s.unicode_len();
    if n >= 4 && s.get_char(0) == 't' && s.get_char(1) == 'a' && s.get_char(2) == 'g'
        && s.get_char(3) == ':' {
        s.substring_char(4, n)
    } else {
        s
    }
}

/// Index of the first occurrence of `sep` in `s`, or `s.len()` if
/// there is none.
pub open spec fn find_sep(s: Seq<char>, sep: char) -> int
    decreases s.len(),
{
    if s.len() == 0 {
        0
    } else if s[0] == sep {
        0
    } else {
        1 + find_sep(s.subrange(1, s.len() as int), sep)
    }
}

pub proof fn lemma_find_sep(s: Seq<char>, sep: char)
    ensures
        0 <= find_sep(s, sep) <= s.len(),
        find_sep(s, sep) < s.len() ==> s[find_sep(s, sep)] == sep,
        forall|j: int| 0 <= j < find_sep(s, sep) ==> s[j] != sep,
    decreases s.len(),
{
    if s.len() == 0 {
    } else if s[0] == sep {
    } else {
        let rest = s.subrange(1, s.len() as int);
        lemma_find_sep(rest, sep);
        assert forall|j: int| 0 <= j < find_sep(s, sep) implies s[j] != sep by {
            if j > 0 {
                assert(rest[j - 1] != sep);
            }
        }
    }
}

/// `find_sep` is the unique index with the first-occurrence shape.
pub proof fn lemma_find_sep_unique(s: Seq<char>, sep: char, i: int)
    requires
        0 <= i <= s.len(),
        i < s.len() ==> s[i] == sep,
        forall|j: int| 0 <= j < i ==> s[j] != sep,
        i == s.len() ==> forall|j: int| 0 <= j < s.len() ==> s[j] != sep,
    ensures
        find_sep(s, sep) == i,
    decreases s.len(),
{
    if s.len() == 0 {
    } else if s[0] == sep {
    } else {
        let rest = s.subrange(1, s.len() as int);
        assert(forall|j: int| 0 <= j < rest.len() ==> rest[j] == s[j + 1]);
        lemma_find_sep_unique(rest, sep, i - 1);
    }
}

/// Splitting a string on a separator character, as `str::split` does:
/// there is always at least one piece, and empty pieces are kept.
pub open spec fn split_seq(s: Seq<char>, sep: char) -> Seq<Seq<char>>
    decreases s.len(),
    via split_seq_decreases
{
    let i = find_sep(s, sep);
    if i == s.len() {
        seq![s]
    } else {
        seq![s.subrange(0, i)] + split_seq(s.subrange(i + 1, s.len() as int), sep)
    }
}

#[via_fn]
proof fn split_seq_decreases(s: Seq<char>, sep: char) {
    lemma_find_sep(s, sep);
}

pub proof fn lemma_split_seq_len(s: Seq<char>, sep: char)
    ensures
        split_seq(s, sep).len() >= 1,
    decreases s.len(),
{
    lemma_find_sep(s, sep);
    let i = find_sep(s, sep);
    if i < s.len() {
        lemma_split_seq_len(s.subrange(i + 1, s.len() as int), sep);
    }
}

/// The views of a vector of strings.
pub open spec fn views_of(v: Seq<String>) -> Seq<Seq<char>> {
    Seq::new(v.len(), |i: int| v[i]@)
}

/// Copies the characters `from..to` of `s` into a fresh string.
fn copy_range(s: &str, from: usize, to: usize) -> (r: String)
    requires
        from <= to,
        to <= s@.len(),
    ensures
        r@ == s@.subrange(from as int, to as int),
{
    let mut r = String::new();
    let mut i: usize = from;
    while i < to
        invariant
            from <= i <= to,
            to <= s@.len(),
            r@.len() == i - from,
            forall|j: int| 0 <= j < r@.len() ==> r@[j] == s@[from + j],
        decreases to - i,
    {
        let c = s.get_char(i);
        push_char(&mut r, c);
        i = i + 1;
    }
    assert(r@ =~= s@.subrange(from as int, to as int));
    r
}

pub fn split_on(s: &str, sep: char) -> (r: Vec<String>)
    ensures
        views_of(r@) == split_seq(s@, sep),
{
    let n = s.unicode_len();
    let mut out: Vec<String> = Vec::new();
    let mut start: usize = 0;
    proof {
        assert(s@.subrange(0, n as int) =~= s@);
        assert(views_of(out@) + split_seq(s@, sep) =~= split_seq(s@, sep));
    }
    loop
        invariant
            start <= n,
            n == s@.len(),
            split_seq(s@, sep) == views_of(out@) + split_seq(
                s@.subrange(start as int, n as int),
                sep,
            ),
        decreases n - start,
    {
        let ghost suffix = s@.subrange(start as int, n as int);
        // scan for the next separator
        let mut i: usize = start;
        while i < n && s.get_char(i) != sep
            invariant
                start <= i <= n,
                n == s@.len(),
                forall|j: int| start <= j < i ==> s@[j] != sep,
            decreases n - i,
        {
            i = i + 1;
        }
        proof {
            assert(forall|j: int| 0 <= j < i - start ==> suffix[j] == s@[start + j]);
            if i < n {
                assert(suffix[i - start] == s@[i as int]);
            }
            lemma_find_sep_unique(suffix, sep, i - start);
        }
        let piece = copy_range(s, start, i);
        out.push(piece);
        if i == n {
            proof {
                assert(piece@ == suffix.subrange(0, suffix.len() as int));
                assert(piece@ =~= suffix);
                assert(split_seq(suffix, sep) == seq![suffix]);
                assert(views_of(out@) =~= views_of(out@.drop_last()) + seq![suffix]);
                assert(views_of(out@) + Seq::<Seq<char>>::empty() =~= views_of(out@));
                assert(split_seq(s@, sep) =~= views_of(out@.drop_last()) + seq![suffix]);
            }
            return out;
        }
        proof {
            let tail = suffix.subrange(i - start + 1, suffix.len() as int);
            assert(piece@ == suffix.subrange(0, i - start));
            assert(split_seq(suffix, sep) == seq![suffix.subrange(0, i - start)] + split_seq(
                tail,
                sep,
            ));
            assert(tail =~= s@.subrange(i + 1, n as int));
            assert(views_of(out@) =~= views_of(out@.drop_last()) + seq![piece@]);
            assert(views_of(out@.drop_last()) + (seq![piece@] + split_seq(tail, sep)) =~= (
            views_of(out@.drop_last()) + seq![piece@]) + split_seq(tail, sep));
        }
        start = i + 1;
    }
}

/// The pieces joined with `sep` between each two of them.
pub open spec fn join_seq(parts: Seq<Seq<char>>, sep: char) -> Seq<char>
    decreases parts.len(),
{
    if parts.len() == 0 {
        Seq::empty()
    } else if parts.len() == 1 {
        parts[0]
    } else {
        parts[0] + seq![sep] + join_seq(parts.subrange(1, parts.len() as int), sep)
    }
}

pub proof fn lemma_join_push(parts: Seq<Seq<char>>, sep: char, x: Seq<char>)
    requires
        parts.len() >= 1,
    ensures
        join_seq(parts.push(x), sep) == join_seq(parts, sep) + seq![sep] + x,
    decreases parts.len(),
{
    if parts.len() == 1 {
        let two = parts.push(x);
        assert(two.subrange(1, 2) =~= seq![x]);
        assert(join_seq(seq![x], sep) == x);
        assert(join_seq(two, sep) == two[0] + seq![sep] + join_seq(two.subrange(1, 2), sep));
    } else {
        let rest = parts.subrange(1, parts.len() as int);
        lemma_join_push(rest, sep, x);
        assert(parts.push(x).subrange(1, parts.push(x).len() as int) =~= rest.push(x));
        assert(join_seq(parts.push(x), sep) =~= join_seq(parts, sep) + seq![sep] + x);
    }
}

/// Joins the strings of `parts` with `sep` between each two of them.
pub fn join_with(parts: &Vec<String>, sep: char) -> (r: String)
    ensures
        r@ == join_seq(views_of(parts@), sep),
{
    let mut r = String::new();
    let mut i: usize = 0;
    while i < parts.len()
        invariant
            i <= parts@.len(),
            r@ == join_seq(views_of(parts@).subrange(0, i as int), sep),
        decreases parts@.len() - i,
    {
        if i > 0 {
            push_char(&mut r, sep);
        }
        let mut j: usize = 0;
        let p = &parts[i];
        let pn = p.as_str().unicode_len();
        let ghost mid = r@;
        while j < pn
            invariant
                j <= pn,
                pn == p@.len(),
                r@ == mid + p@.subrange(0, j as int),
            decreases pn - j,
        {
            let c = p.as_str().get_char(j);
            push_char(&mut r, c);
            proof {
                assert(mid + p@.subrange(0, j + 1) =~= (mid + p@.subrange(0, j as int)).push(
                    p@[j as int],
                ));
            }
            j = j + 1;
        }
        proof {
            let pre = views_of(parts@).subrange(0, i as int);
            assert(p@.subrange(0, pn as int) =~= p@);
            if i == 0 {
                assert(pre.len() == 0);
                assert(views_of(parts@).subrange(0, 1) =~= seq![parts@[0]@]);
                assert(mid + p@ =~= p@);
                assert(join_seq(views_of(parts@).subrange(0, 1), sep) == parts@[0]@);
            } else {
                lemma_join_push(pre, sep, p@);
                assert(views_of(parts@).subrange(0, i + 1) =~= pre.push(p@));
                assert(r@ =~= join_seq(pre, sep) + seq![sep] + p@);
            }
        }
        i = i + 1;
    }
    proof {
        assert(views_of(parts@).subrange(0, parts@.len() as int) =~= views_of(parts@));
    }
    r
}


/// An ASCII decimal digit.
pub open spec fn is_digit(c: char) -> bool {
    '0' <= c && c <= '9'
}

pub open spec fn digit_val(c: char) -> int {
    c as int - '0' as int
}

/// Numeric value of a digit string, most significant digit first.
pub open spec fn digits_val(s: Seq<char>) -> int
    decreases s.len(),
{
    if s.len() == 0 {
        0
    } else {
        digits_val(s.drop_last()) * 10 + digit_val(s.last())
    }
}

/// The digit part of a number string: an optional leading `+` is
/// allowed, as `str::parse` allows it for unsigned integers.
pub open spec fn number_body(s: Seq<char>) -> Seq<char> {
    if s.len() >= 1 && s[0] == '+' {
        s.subrange(1, s.len() as int)
    } else {
        s
    }
}

/// True when `str::parse::<u16>` accepts the string: after the
/// optional sign there is at least one digit, nothing else, and the
/// value fits in sixteen bits.
pub open spec fn parses_as_u16(s: Seq<char>) -> bool {
    let b = number_body(s);
    b.len() >= 1 && (forall|i: int| 0 <= i < b.len() ==> is_digit(b[i])) && digits_val(b) <= 65535
}

/// The value of a port number string.
pub open spec fn u16_value(s: Seq<char>) -> int {
    digits_val(number_body(s))
}

/// Parses a decimal port number, as the standard library's
/// `str::parse::<u16>` does on the strings this crate meets.
pub fn parse_u16(s: &str) -> (r: Option<u16>)
    ensures
        parses_as_u16(s@) ==> r == Some((u16_value(s@) as u16)),
        !parses_as_u16(s@) ==> r is None,
{
    let n = s.unicode_len();
    let mut i: usize = 0;
    if n >= 1 && s.get_char(0) == '+' {
        i = 1;
    }
    let ghost b = number_body(s@);
    let ghost start = i as int;
    assert(b =~= s@.subrange(start, n as int));
    if i == n {
        return None;
    }
    let mut acc: u32 = 0;
    while i < n
        invariant
            n == s@.len(),
            0 <= start <= i <= n,
            start <= 1,
            b == number_body(s@),
            b == s@.subrange(start, n as int),
            forall|j: int| 0 <= j < i - start ==> is_digit(b[j]),
            acc <= 65535,
            acc == digits_val(b.subrange(0, i - start)),
        decreases n - i,
    {
        let c = s.get_char(i);
        if !('0' <= c && c <= '9') {
            assert(!is_digit(b[i - start]));
            return None;
        }
        let d: u32 = (c as u32) - 48;
        proof {
            assert(b.subrange(0, i - start + 1).drop_last() =~= b.subrange(0, i - start));
            assert(b.subrange(0, i - start + 1).last() == b[i - start]);
        }
        if acc > 6553 || (acc == 6553 && d > 5) {
            // the value can only grow from here: every further digit
            // multiplies by ten and adds a non-negative amount
            proof {
                lemma_digits_prefix_monotone(b, i - start + 1);
            }
            return None;
        }
        acc = acc * 10 + d;
        i = i + 1;
    }
    assert(b.subrange(0, b.len() as int) =~= b);
    Some(acc as u16)
}

/// Once a prefix of an all-digit string exceeds the sixteen-bit
/// range, the whole string does too.
proof fn lemma_digits_prefix_monotone(b: Seq<char>, k: int)
    requires
        0 <= k <= b.len(),
    ensures
        (forall|i: int| 0 <= i < b.len() ==> is_digit(b[i])) && digits_val(b.subrange(0, k))
            > 65535 ==> digits_val(b) > 65535,
    decreases b.len() - k,
{
    if k < b.len() {
        lemma_digits_prefix_monotone(b, k + 1);
        if forall|i: int| 0 <= i < b.len() ==> is_digit(b[i]) {
            assert(b.subrange(0, k + 1).drop_last() =~= b.subrange(0, k));
            assert(b.subrange(0, k + 1).last() == b[k]);
            if digits_val(b.subrange(0, k)) > 65535 {
                assert(digit_val(b[k]) >= 0);
                assert(digits_val(b.subrange(0, k + 1)) > 65535);
            }
        }
    } else {
        assert(b.subrange(0, k) =~= b);
    }
}

/// The decimal digit character for a value below ten.
pub open spec fn digit_char(d: int) -> char {
    ((48 + d) as u8) as char
}

/// The decimal form of a non-negative number, without sign and
/// without leading zeros (a single zero for zero itself).
pub open spec fn dec_str(n: int) -> Seq<char>
    decreases n,
{
    if n < 10 {
        seq![digit_char(n)]
    } else {
        dec_str(n / 10).push(digit_char(n % 10))
    }
}

/// Appends the decimal form of `n` to `out`.
pub fn push_dec_u32(n: u32, out: &mut String)
    ensures
        final(out)@ == old(out)@ + dec_str(n as int),
    decreases n,
{
    if n < 10 {
        push_char(out, (48 + (n as u8)) as char);
        assert(out@ =~= old(out)@ + dec_str(n as int));
    } else {
        push_dec_u32(n / 10, out);
        push_char(out, (48 + ((n % 10) as u8)) as char);
        assert(out@ =~= old(out)@ + dec_str(n as int));
    }
}


/// The characters `str::trim` removes: the Unicode white-space
/// code points.
pub open spec fn is_space(c: char) -> bool {
    c == '\u{09}' || c == '\u{0A}' || c == '\u{0B}' || c == '\u{0C}' || c == '\u{0D}'
        || c == ' ' || c == '\u{85}' || c == '\u{A0}' || c == '\u{1680}' || ('\u{2000}' <= c
        && c <= '\u{200A}') || c == '\u{2028}' || c == '\u{2029}' || c == '\u{202F}' || c
        == '\u{205F}' || c == '\u{3000}'
}

/// Number of leading whitespace characters.
pub open spec fn lead_spaces(s: Seq<char>) -> int
    decreases s.len(),
{
    if s.len() == 0 {
        0
    } else if is_space(s[0]) {
        1 + lead_spaces(s.subrange(1, s.len() as int))
    } else {
        0
    }
}

pub proof fn lemma_lead_spaces(s: Seq<char>)
    ensures
        0 <= lead_spaces(s) <= s.len(),
        forall|j: int| 0 <= j < lead_spaces(s) ==> is_space(s[j]),
        lead_spaces(s) < s.len() ==> !is_space(s[lead_spaces(s)]),
    decreases s.len(),
{
    if s.len() > 0 && is_space(s[0]) {
        let rest = s.subrange(1, s.len() as int);
        lemma_lead_spaces(rest);
        assert forall|j: int| 0 <= j < lead_spaces(s) implies is_space(s[j]) by {
            if j > 0 {
                assert(is_space(rest[j - 1]));
            }
        }
        if lead_spaces(s) < s.len() {
            assert(!is_space(rest[lead_spaces(rest)]));
        }
    }
}

pub proof fn lemma_lead_spaces_unique(s: Seq<char>, i: int)
    requires
        0 <= i <= s.len(),
        forall|j: int| 0 <= j < i ==> is_space(s[j]),
        i < s.len() ==> !is_space(s[i]),
    ensures
        lead_spaces(s) == i,
    decreases s.len(),
{
    if s.len() > 0 && is_space(s[0]) {
        let rest = s.subrange(1, s.len() as int);
        assert(forall|j: int| 0 <= j < rest.len() ==> rest[j] == s[j + 1]);
        lemma_lead_spaces_unique(rest, i - 1);
    }
}

/// Number of trailing whitespace characters.
pub open spec fn tail_spaces(s: Seq<char>) -> int
    decreases s.len(),
{
    if s.len() == 0 {
        0
    } else if is_space(s.last()) {
        1 + tail_spaces(s.drop_last())
    } else {
        0
    }
}

pub proof fn lemma_tail_spaces(s: Seq<char>)
    ensures
        0 <= tail_spaces(s) <= s.len(),
        forall|j: int| s.len() - tail_spaces(s) <= j < s.len() ==> is_space(s[j]),
        tail_spaces(s) < s.len() ==> !is_space(s[s.len() - tail_spaces(s) - 1]),
    decreases s.len(),
{
    if s.len() > 0 && is_space(s.last()) {
        let rest = s.drop_last();
        lemma_tail_spaces(rest);
        assert forall|j: int| s.len() - tail_spaces(s) <= j < s.len() implies is_space(s[j]) by {
            if j < s.len() - 1 {
                assert(is_space(rest[j]));
            }
        }
        if tail_spaces(s) < s.len() {
            assert(!is_space(rest[rest.len() - tail_spaces(rest) - 1]));
        }
    }
}

pub proof fn lemma_tail_spaces_unique(s: Seq<char>, i: int)
    requires
        0 <= i <= s.len(),
        forall|j: int| s.len() - i <= j < s.len() ==> is_space(s[j]),
        i < s.len() ==> !is_space(s[s.len() - i - 1]),
    ensures
        tail_spaces(s) == i,
    decreases s.len(),
{
    if s.len() > 0 && is_space(s.last()) {
        lemma_tail_spaces_unique(s.drop_last(), i - 1);
    }
}

/// The string with leading and trailing whitespace removed.
pub open spec fn trim_seq(s: Seq<char>) -> Seq<char> {
    if lead_spaces(s) == s.len() {
        Seq::empty()
    } else {
        s.subrange(lead_spaces(s), s.len() - tail_spaces(s))
    }
}

pub fn char_is_space(c: char) -> (r: bool)
    ensures
        r == is_space(c),
{
    c == '\u{09}' || c == '\u{0A}' || c == '\u{0B}' || c == '\u{0C}' || c == '\u{0D}'
        || c == ' ' || c == '\u{85}' || c == '\u{A0}' || c == '\u{1680}' || ('\u{2000}' <= c
        && c <= '\u{200A}') || c == '\u{2028}' || c == '\u{2029}' || c == '\u{202F}' || c
        == '\u{3000}' || c == '\u{205F}'
}

/// Removes leading and trailing whitespace, exactly as `str::trim`
/// does.
pub fn trim(s: &str) -> (r: String)
    ensures
        r@ == trim_seq(s@),
{
    let n = s.unicode_len();
    let mut a: usize = 0;
    while a < n && char_is_space(s.get_char(a))
        invariant
            a <= n,
            n == s@.len(),
            forall|j: int| 0 <= j < a ==> is_space(s@[j]),
        decreases n - a,
    {
        a = a + 1;
    }
    if a == n {
        proof {
            lemma_lead_spaces_unique(s@, a as int);
        }
        return String::new();
    }
    let mut b: usize = n;
    while b > a && char_is_space(s.get_char(b - 1))
        invariant
            a <= b <= n,
            n == s@.len(),
            a < n,
            !is_space(s@[a as int]),
            forall|j: int| b <= j < n ==> is_space(s@[j]),
        decreases b,
    {
        b = b - 1;
    }
    proof {
        lemma_lead_spaces_unique(s@, a as int);
        lemma_tail_spaces_unique(s@, n - b);
    }
    copy_range(s, a, b)
}


/// Index of the first occurrence of `needle` in `hay`, or a
/// negative number if there is none.
pub open spec fn find_sub(hay: Seq<char>, needle: Seq<char>) -> int
    decreases hay.len(),
{
    if needle.len() > hay.len() {
        -1
    } else if hay.subrange(0, needle.len() as int) == needle {
        0
    } else if hay.len() == needle.len() {
        -1
    } else {
        let r = find_sub(hay.subrange(1, hay.len() as int), needle);
        if r < 0 {
            -1
        } else {
            1 + r
        }
    }
}

pub proof fn lemma_find_sub(hay: Seq<char>, needle: Seq<char>)
    ensures
        find_sub(hay, needle) >= 0 ==> find_sub(hay, needle) + needle.len() <= hay.len()
            && hay.subrange(find_sub(hay, needle), find_sub(hay, needle) + needle.len())
            == needle,
        find_sub(hay, needle) < 0 ==> forall|j: int|
            0 <= j && j + needle.len() <= hay.len() ==> #[trigger] hay.subrange(
                j,
                j + needle.len(),
            ) != needle,
    decreases hay.len(),
{
    if needle.len() > hay.len() {
    } else if hay.subrange(0, needle.len() as int) == needle {
    } else if hay.len() == needle.len() {
        assert forall|j: int|
            0 <= j && j + needle.len() <= hay.len() implies #[trigger] hay.subrange(
                j,
                j + needle.len(),
            ) != needle by {
            assert(hay.subrange(0, needle.len() as int) != needle);
        }
    } else {
        let rest = hay.subrange(1, hay.len() as int);
        lemma_find_sub(rest, needle);
        let r = find_sub(rest, needle);
        if r >= 0 {
            assert(rest.subrange(r, r + needle.len()) =~= hay.subrange(r + 1, r + 1
                + needle.len()));
        } else {
            assert forall|j: int|
                0 <= j && j + needle.len() <= hay.len() implies #[trigger] hay.subrange(
                    j,
                    j + needle.len(),
                ) != needle by {
                if j > 0 {
                    assert(rest.subrange(j - 1, j - 1 + needle.len()) =~= hay.subrange(
                        j,
                        j + needle.len(),
                    ));
                    assert(rest.subrange(j - 1, j - 1 + needle.len()) != needle);
                }
            }
        }
    }
}

/// The first-occurrence shape pins `find_sub` down.
pub proof fn lemma_find_sub_at(hay: Seq<char>, needle: Seq<char>, i: int)
    requires
        0 <= i,
        i + needle.len() <= hay.len(),
        hay.subrange(i, i + needle.len()) == needle,
        forall|j: int| 0 <= j < i ==> #[trigger] hay.subrange(j, j + needle.len()) != needle,
    ensures
        find_sub(hay, needle) == i,
    decreases hay.len(),
{
    if i == 0 {
        assert(hay.subrange(0, needle.len() as int) == needle);
    } else {
        assert(hay.subrange(0, 0 + needle.len() as int) != needle);
        let rest = hay.subrange(1, hay.len() as int);
        assert(rest.subrange(i - 1, i - 1 + needle.len()) =~= hay.subrange(i, i + needle.len()));
        assert forall|j: int|
            0 <= j < i - 1 implies #[trigger] rest.subrange(j, j + needle.len()) != needle by {
            assert(rest.subrange(j, j + needle.len()) =~= hay.subrange(j + 1, j + 1
                + needle.len()));
            assert(hay.subrange(j + 1, j + 1 + needle.len()) != needle);
        }
        lemma_find_sub_at(rest, needle, i - 1);
    }
}

/// The character position of the first occurrence of `needle` in
/// `hay`, if there is one.
pub fn index_of_sub(hay: &str, needle: &str) -> (r: Option<usize>)
    ensures
        (match r {
            Some(i) => find_sub(hay@, needle@) == i as int,
            None => find_sub(hay@, needle@) < 0,
        }),
{
    let hn = hay.unicode_len();
    let nn = needle.unicode_len();
    if nn > hn {
        return None;
    }
    if nn == 0 {
        proof {
            assert(hay@.subrange(0, 0 + needle@.len() as int) =~= needle@);
            lemma_find_sub_at(hay@, needle@, 0);
        }
        return Some(0);
    }
    let mut i: usize = 0;
    while i <= hn - nn
        invariant
            hn == hay@.len(),
            nn == needle@.len(),
            1 <= nn <= hn,
            i <= hn - nn + 1,
            forall|k: int|
                0 <= k < i ==> #[trigger] hay@.subrange(k, k + needle@.len()) != needle@,
        decreases hn - i,
    {
        if matches_at(hay, needle, i) {
            proof {
                lemma_find_sub_at(hay@, needle@, i as int);
            }
            return Some(i);
        }
        i = i + 1;
    }
    proof {
        lemma_find_sub(hay@, needle@);
        if find_sub(hay@, needle@) >= 0 {
            assert(hay@.subrange(
                find_sub(hay@, needle@),
                find_sub(hay@, needle@) + needle@.len(),
            ) != needle@);
        }
    }
    None
}

} // verus!
