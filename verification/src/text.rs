//! Character-level text operations: whitespace trimming, trailing-character
//! stripping, decimal rendering of integers and joining with a separator.
use vstd::prelude::*;

verus! {

broadcast use vstd::string::group_string_axioms;

// ---------------------------------------------------------------------------
// Specifications
// ---------------------------------------------------------------------------

/// Unicode `White_Space`, which is what `char::is_whitespace` tests.
pub open spec fn is_white_space(c: char) -> bool {
    let v: u32 = c as u32;
    ||| 0x9 <= v <= 0xd
    ||| v == 0x20
    ||| v == 0x85
    ||| v == 0xa0
    ||| v == 0x1680
    ||| 0x2000 <= v <= 0x200a
    ||| v == 0x2028
    ||| v == 0x2029
    ||| v == 0x202f
    ||| v == 0x205f
    ||| v == 0x3000
}

/// `s` without its leading white space.
pub open spec fn trim_start_ws(s: Seq<char>) -> Seq<char>
    decreases s.len(),
{
    if s.len() > 0 && is_white_space(s[0]) {
        trim_start_ws(s.drop_first())
    } else {
        s
    }
}

/// `s` without its trailing white space.
pub open spec fn trim_end_ws(s: Seq<char>) -> Seq<char>
    decreases s.len(),
{
    if s.len() > 0 && is_white_space(s.last()) {
        trim_end_ws(s.drop_last())
    } else {
        s
    }
}

/// `s` without leading and trailing white space (what `str::trim` gives).
pub open spec fn trim_ws(s: Seq<char>) -> Seq<char> {
    trim_end_ws(trim_start_ws(s))
}

/// `s` without any trailing occurrence of `c` (what `str::trim_end_matches(c)` gives).
pub open spec fn trim_trailing(s: Seq<char>, c: char) -> Seq<char>
    decreases s.len(),
{
    if s.len() > 0 && s.last() == c {
        trim_trailing(s.drop_last(), c)
    } else {
        s
    }
}

/// The ASCII digit for `d < 10`.
pub open spec fn digit_char(d: nat) -> char {
    if d == 0 {
        '0'
    } else if d == 1 {
        '1'
    } else if d == 2 {
        '2'
    } else if d == 3 {
        '3'
    } else if d == 4 {
        '4'
    } else if d == 5 {
        '5'
    } else if d == 6 {
        '6'
    } else if d == 7 {
        '7'
    } else if d == 8 {
        '8'
    } else {
        '9'
    }
}

/// The value of an ASCII digit.
pub open spec fn digit_value(c: char) -> nat {
    ((c as u32) - ('0' as u32)) as nat
}

pub open spec fn is_digit(c: char) -> bool {
    '0' <= c && c <= '9'
}

/// The decimal notation of `n`, without sign or leading zeros.
pub open spec fn decimal(n: nat) -> Seq<char>
    decreases n,
{
    if n < 10 {
        seq![digit_char(n)]
    } else {
        decimal(n / 10).push(digit_char(n % 10))
    }
}

/// The number that a string of decimal digits denotes.
pub open spec fn decimal_value(s: Seq<char>) -> nat
    decreases s.len(),
{
    if s.len() == 0 {
        0
    } else {
        10 * decimal_value(s.drop_last()) + digit_value(s.last())
    }
}

/// The items of `list` with `sep` between neighbours (what `[String]::join` gives).
pub open spec fn joined(list: Seq<Seq<char>>, sep: Seq<char>) -> Seq<char>
    decreases list.len(),
{
    if list.len() == 0 {
        Seq::empty()
    } else if list.len() == 1 {
        list[0]
    } else {
        joined(list.drop_last(), sep) + sep + list.last()
    }
}

/// The views of a list of strings.
pub open spec fn views(list: Seq<String>) -> Seq<Seq<char>> {
    list.map_values(|s: String| s@)
}

// ---------------------------------------------------------------------------
// Trusted std operation
// ---------------------------------------------------------------------------

/// `String::push` from std: appends the character `c` at the end of `s`.
#[verifier::external_body]
pub(crate) fn push_char(s: &mut String, c: char)
    ensures
        final(s)@ == old(s)@.push(c),
{
    s.push(c);
}

// ---------------------------------------------------------------------------
// Executable operations
// ---------------------------------------------------------------------------

/// The characters of `s`, in order.
pub fn chars_of(s: &str) -> (out: Vec<char>)
    ensures
        out@ == s@,
{
    let mut out: Vec<char> = Vec::new();
    for c in it: s.chars()
        invariant
            out@ == it.seq().subrange(0, it.index() as int),
            it.seq() == s@,
    {
        out.push(c);
    }
    out
}

/// The string made of `chars[from..to]`.
pub fn string_of_range(chars: &Vec<char>, from: usize, to: usize) -> (out: String)
    requires
        from <= to <= chars@.len(),
    ensures
        out@ == chars@.subrange(from as int, to as int),
{
    let mut out = String::new();
    let mut i: usize = from;
    while i < to
        invariant
            from <= i <= to <= chars@.len(),
            out@ == chars@.subrange(from as int, i as int),
        decreases to - i,
    {
        push_char(&mut out, chars[i]);
        assert(chars@.subrange(from as int, i + 1) == chars@.subrange(from as int, i as int).push(
            chars@[i as int],
        ));
        i = i + 1;
    }
    out
}

/// Whether `c` is white space in the sense of Unicode `White_Space`.
pub fn is_whitespace_char(c: char) -> (r: bool)
    ensures
        r == is_white_space(c),
{
    let v: u32 = c as u32;
    (0x9 <= v && v <= 0xd) || v == 0x20 || v == 0x85 || v == 0xa0 || v == 0x1680 || (0x2000 <= v
        && v <= 0x200a) || v == 0x2028 || v == 0x2029 || v == 0x202f || v == 0x205f || v == 0x3000
}

proof fn lemma_trim_start_skip(s: Seq<char>, i: int)
    requires
        0 <= i < s.len(),
        is_white_space(s[i]),
    ensures
        trim_start_ws(s.subrange(i, s.len() as int)) == trim_start_ws(
            s.subrange(i + 1, s.len() as int),
        ),
{
    assert(s.subrange(i, s.len() as int).drop_first() == s.subrange(i + 1, s.len() as int));
}

proof fn lemma_trim_end_skip(t: Seq<char>, j: int)
    requires
        0 < j <= t.len(),
        is_white_space(t[j - 1]),
    ensures
        trim_end_ws(t.subrange(0, j)) == trim_end_ws(t.subrange(0, j - 1)),
{
    assert(t.subrange(0, j).drop_last() == t.subrange(0, j - 1));
}

/// `s` without leading and trailing white space, as `str::trim` gives it.
pub fn trim(s: &str) -> (out: String)
    ensures
        out@ == trim_ws(s@),
{
    let chars = chars_of(s);
    let n: usize = chars.len();
    let ghost sv = s@;
    let mut i: usize = 0;
    assert(sv.subrange(0, n as int) == sv);
    while i < n && is_whitespace_char(chars[i])
        invariant
            chars@ == sv,
            n == sv.len(),
            i <= n,
            trim_start_ws(sv) == trim_start_ws(sv.subrange(i as int, n as int)),
        decreases n - i,
    {
        proof {
            lemma_trim_start_skip(sv, i as int);
        }
        i = i + 1;
    }
    let ghost t = sv.subrange(i as int, n as int);
    assert(trim_start_ws(sv) == t);
    let mut j: usize = n;
    assert(t.subrange(0, j - i) == t);
    while j > i && is_whitespace_char(chars[j - 1])
        invariant
            chars@ == sv,
            n == sv.len(),
            i <= j <= n,
            t == sv.subrange(i as int, n as int),
            trim_end_ws(t) == trim_end_ws(t.subrange(0, j - i)),
        decreases j - i,
    {
        proof {
            lemma_trim_end_skip(t, j - i);
        }
        j = j - 1;
    }
    assert(trim_end_ws(t.subrange(0, j - i)) == t.subrange(0, j - i));
    assert(t.subrange(0, j - i) == sv.subrange(i as int, j as int));
    string_of_range(&chars, i, j)
}

/// `s` without any trailing `c`, as `str::trim_end_matches(c)` gives it.
pub fn trim_end_char(s: &str, c: char) -> (out: String)
    ensures
        out@ == trim_trailing(s@, c),
{
    let chars = chars_of(s);
    let ghost sv = s@;
    let mut j: usize = chars.len();
    assert(sv.subrange(0, j as int) == sv);
    while j > 0 && chars[j - 1] == c
        invariant
            chars@ == sv,
            j <= sv.len(),
            trim_trailing(sv, c) == trim_trailing(sv.subrange(0, j as int), c),
        decreases j,
    {
        assert(sv.subrange(0, j as int).drop_last() == sv.subrange(0, j - 1));
        j = j - 1;
    }
    string_of_range(&chars, 0, j)
}

/// The ASCII digit for `d`.
pub fn digit(d: u64) -> (c: char)
    requires
        d < 10,
    ensures
        c == digit_char(d as nat),
{
    if d == 0 {
        '0'
    } else if d == 1 {
        '1'
    } else if d == 2 {
        '2'
    } else if d == 3 {
        '3'
    } else if d == 4 {
        '4'
    } else if d == 5 {
        '5'
    } else if d == 6 {
        '6'
    } else if d == 7 {
        '7'
    } else if d == 8 {
        '8'
    } else {
        '9'
    }
}

/// The decimal notation of `n`, as `n.to_string()` gives it.
pub fn decimal_string(n: u64) -> (out: String)
    ensures
        out@ == decimal(n as nat),
    decreases n,
{
    if n < 10 {
        let mut out = String::new();
        push_char(&mut out, digit(n));
        out
    } else {
        let mut out = decimal_string(n / 10);
        push_char(&mut out, digit(n % 10));
        out
    }
}

/// The items of `list` with `sep` between neighbours, as `list.join(sep)` gives it.
pub fn join(list: &Vec<String>, sep: &str) -> (out: String)
    ensures
        out@ == joined(views(list@), sep@),
{
    let mut out = String::new();
    let ghost vs = views(list@);
    let mut i: usize = 0;
    while i < list.len()
        invariant
            i <= list@.len(),
            vs == views(list@),
            vs.len() == list@.len(),
            out@ == joined(vs.take(i as int), sep@),
        decreases list@.len() - i,
    {
        assert(vs.take(i + 1).drop_last() == vs.take(i as int));
        assert(vs[i as int] == list@[i as int]@);
        if i != 0 {
            out.append(sep);
        }
        out.append(list[i].as_str());
        i = i + 1;
    }
    assert(vs.take(list@.len() as int) == vs);
    out
}

// ---------------------------------------------------------------------------
// Laws
// ---------------------------------------------------------------------------

/// Trimming white space twice gives what trimming once gives.
pub proof fn lemma_trim_idempotent(s: Seq<char>)
    ensures
        trim_ws(trim_ws(s)) == trim_ws(s),
{
    lemma_trim_start_ws_props(s);
    let a = trim_start_ws(s);
    lemma_trim_end_ws_props(a);
    let b = trim_end_ws(a);
    // b has no leading white space (it is a prefix of a, which has none) and no trailing one.
    if b.len() > 0 {
        assert(b[0] == a[0]);
    }
    assert(trim_start_ws(b) == b);
    lemma_trim_end_ws_props(b);
}

/// The trimmed text neither starts nor ends with white space, and it stands
/// inside the original text.
pub proof fn lemma_trim_shape(s: Seq<char>)
    ensures
        trim_ws(s).len() > 0 ==> !is_white_space(trim_ws(s)[0]) && !is_white_space(
            trim_ws(s).last(),
        ),
        exists|i: int, j: int| 0 <= i <= j <= s.len() && trim_ws(s) == s.subrange(i, j),
{
    lemma_trim_start_ws_props(s);
    let a = trim_start_ws(s);
    lemma_trim_end_ws_props(a);
    let b = trim_end_ws(a);
    if b.len() > 0 {
        assert(b[0] == a[0]);
    }
    let i: int = s.len() - a.len();
    let j: int = i + b.len();
    assert(b == s.subrange(i, j));
}

proof fn lemma_trim_start_ws_props(s: Seq<char>)
    ensures
        trim_start_ws(s).len() <= s.len(),
        trim_start_ws(s) == s.subrange(s.len() - trim_start_ws(s).len(), s.len() as int),
        trim_start_ws(s).len() > 0 ==> !is_white_space(trim_start_ws(s)[0]),
        trim_start_ws(trim_start_ws(s)) == trim_start_ws(s),
    decreases s.len(),
{
    if s.len() > 0 && is_white_space(s[0]) {
        lemma_trim_start_ws_props(s.drop_first());
        assert(s.drop_first().subrange(
            s.drop_first().len() - trim_start_ws(s).len(),
            s.drop_first().len() as int,
        ) == s.subrange(s.len() - trim_start_ws(s).len(), s.len() as int));
    } else {
        assert(s.subrange(0, s.len() as int) == s);
    }
}

proof fn lemma_trim_end_ws_props(s: Seq<char>)
    ensures
        trim_end_ws(s).len() <= s.len(),
        trim_end_ws(s) == s.subrange(0, trim_end_ws(s).len() as int),
        trim_end_ws(s).len() > 0 ==> !is_white_space(trim_end_ws(s).last()),
        trim_end_ws(trim_end_ws(s)) == trim_end_ws(s),
    decreases s.len(),
{
    if s.len() > 0 && is_white_space(s.last()) {
        lemma_trim_end_ws_props(s.drop_last());
        assert(s.drop_last().subrange(0, trim_end_ws(s).len() as int) == s.subrange(
            0,
            trim_end_ws(s).len() as int,
        ));
    } else {
        assert(s.subrange(0, s.len() as int) == s);
    }
}

/// Stripping a trailing character twice gives what stripping it once gives,
/// and the result does not end with that character.
pub proof fn lemma_trim_trailing_idempotent(s: Seq<char>, c: char)
    ensures
        trim_trailing(trim_trailing(s, c), c) == trim_trailing(s, c),
        trim_trailing(s, c).len() > 0 ==> trim_trailing(s, c).last() != c,
    decreases s.len(),
{
    if s.len() > 0 && s.last() == c {
        lemma_trim_trailing_idempotent(s.drop_last(), c);
    }
}

/// Extra trailing characters make no difference to the stripped text.
pub proof fn lemma_trim_trailing_absorbs(s: Seq<char>, c: char)
    ensures
        trim_trailing(s.push(c), c) == trim_trailing(s, c),
{
    assert(s.push(c).drop_last() == s);
}

/// The decimal notation of `n` is made of digits, starts with a nonzero digit
/// unless `n` is 0, and denotes `n`.
pub proof fn lemma_decimal_denotes(n: nat)
    ensures
        decimal(n).len() > 0,
        forall|i: int| 0 <= i < decimal(n).len() ==> is_digit(#[trigger] decimal(n)[i]),
        n > 0 ==> decimal(n)[0] != '0',
        decimal_value(decimal(n)) == n,
    decreases n,
{
    if n < 10 {
        assert(decimal_value(decimal(n).drop_last()) == 0);
    } else {
        lemma_decimal_denotes(n / 10);
        let s = decimal(n);
        assert(s.drop_last() == decimal(n / 10));
        assert forall|i: int| 0 <= i < s.len() implies is_digit(#[trigger] s[i]) by {
            if i < s.len() - 1 {
                assert(s[i] == decimal(n / 10)[i]);
            }
        }
        assert(s[0] == decimal(n / 10)[0]);
    }
}

} // verus!
