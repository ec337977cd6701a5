//! Text utilities on `char` sequences, each with an exact specification.

use vstd::prelude::*;

verus! {

/// Whether `c` has the Unicode `White_Space` property: the code points
/// U+0009 to U+000D, U+0020, U+0085, U+00A0, U+1680, U+2000 to U+200A,
/// U+2028, U+2029, U+202F, U+205F and U+3000.
pub open spec fn white_space(c: char) -> bool {
    let u = c as u32;
    ||| 0x9 <= u <= 0xD
    ||| u == 0x20
    ||| u == 0x85
    ||| u == 0xA0
    ||| u == 0x1680
    ||| 0x2000 <= u <= 0x200A
    ||| u == 0x2028
    ||| u == 0x2029
    ||| u == 0x202F
    ||| u == 0x205F
    ||| u == 0x3000
}

/// What `char::is_whitespace` decides: whether `c` has the Unicode
/// `White_Space` property.
pub fn is_white_space(c: char) -> (r: bool)
    ensures
        r == white_space(c),
{
    let u = c as u32;
    (0x9 <= u && u <= 0xD) || u == 0x20 || u == 0x85 || u == 0xA0 || u == 0x1680 || (0x2000 <= u && u <= 0x200A)
        || u == 0x2028 || u == 0x2029 || u == 0x202F || u == 0x205F || u == 0x3000
}

/// `String::push` (std): appends one character.
#[verifier::external_body]
pub(crate) fn push_char(s: &mut String, c: char)
    ensures
        final(s)@ == old(s)@.push(c),
{
    s.push(c)
}

/// The characters of `s`, in order.
pub fn chars_of(s: &str) -> (r: Vec<char>)
    ensures
        r@ == s@,
{
    let mut r: Vec<char> = Vec::new();
    for c in it: s.chars()
        invariant
            r@ == it.seq().take(it.index() as int),
            it.seq() == s@,
    {
        r.push(c);
    }
    r
}

/// The string made of the characters of `v`, in order.
pub fn string_of(v: &Vec<char>) -> (r: String)
    ensures
        r@ == v@,
{
    let mut r = String::new();
    let mut i: usize = 0;
    while i < v.len()
        invariant
            i <= v.len(),
            r@ == v@.take(i as int),
        decreases v.len() - i,
    {
        push_char(&mut r, v[i]);
        assert(v@.take(i + 1) == v@.take(i as int).push(v@[i as int]));
        i += 1;
    }
    assert(v@.take(v.len() as int) == v@);
    r
}


/// Number of leading white-space characters of `s`.
pub open spec fn lead_ws(s: Seq<char>) -> nat
    decreases s.len(),
{
    if s.len() > 0 && white_space(s[0]) {
        1 + lead_ws(s.drop_first())
    } else {
        0
    }
}

/// Number of trailing white-space characters of `s`.
pub open spec fn trail_ws(s: Seq<char>) -> nat
    decreases s.len(),
{
    if s.len() > 0 && white_space(s.last()) {
        1 + trail_ws(s.drop_last())
    } else {
        0
    }
}

/// `s` without its leading and trailing white space (what `str::trim` gives).
pub open spec fn trim_spec(s: Seq<char>) -> Seq<char> {
    let t = s.skip(lead_ws(s) as int);
    t.take(t.len() - trail_ws(t))
}

/// Whether every character of `s` is white space.
pub open spec fn all_white(s: Seq<char>) -> bool {
    forall|i: int| 0 <= i < s.len() ==> white_space(#[trigger] s[i])
}

/// When the first `i` characters are white space, `lead_ws` counts them and
/// then continues on the rest.
proof fn lemma_lead_ws_prefix(s: Seq<char>, i: int)
    requires
        0 <= i <= s.len(),
        forall|k: int| 0 <= k < i ==> white_space(#[trigger] s[k]),
    ensures
        lead_ws(s) == i + lead_ws(s.skip(i)),
    decreases i,
{
    if i > 0 {
        let t = s.drop_first();
        assert forall|k: int| 0 <= k < i - 1 implies white_space(#[trigger] t[k]) by {
            assert(t[k] == s[k + 1]);
        }
        lemma_lead_ws_prefix(t, i - 1);
        assert(t.skip(i - 1) == s.skip(i));
    } else {
        assert(s.skip(0) == s);
    }
}

/// When the last `i` characters are white space, `trail_ws` counts them and
/// then continues on the rest.
proof fn lemma_trail_ws_suffix(s: Seq<char>, i: int)
    requires
        0 <= i <= s.len(),
        forall|k: int| s.len() - i <= k < s.len() ==> white_space(#[trigger] s[k]),
    ensures
        trail_ws(s) == i + trail_ws(s.take(s.len() - i)),
    decreases i,
{
    if i > 0 {
        let t = s.drop_last();
        assert forall|k: int| t.len() - (i - 1) <= k < t.len() implies white_space(#[trigger] t[k]) by {
            assert(t[k] == s[k]);
        }
        lemma_trail_ws_suffix(t, i - 1);
        assert(t.take(t.len() - (i - 1)) == s.take(s.len() - i));
    } else {
        assert(s.take(s.len() as int) == s);
    }
}

/// `str::trim`: removes leading and trailing Unicode white space.
pub fn trim(s: &str) -> (r: String)
    ensures
        r@ == trim_spec(s@),
{
    let cs = chars_of(s);
    let n = cs.len();
    let mut a: usize = 0;
    while a < n && is_white_space(cs[a])
        invariant
            a <= n,
            n == cs@.len(),
            forall|k: int| 0 <= k < a ==> white_space(#[trigger] cs@[k]),
        decreases n - a,
    {
        a += 1;
    }
    proof {
        lemma_lead_ws_prefix(cs@, a as int);
        let rest = cs@.skip(a as int);
        if a < n {
            assert(rest[0] == cs@[a as int]);
        }
        assert(lead_ws(rest) == 0);
    }
    let mut b: usize = n;
    while b > a && is_white_space(cs[b - 1])
        invariant
            a <= b <= n,
            n == cs@.len(),
            forall|k: int| b <= k < n ==> white_space(#[trigger] cs@[k]),
        decreases b - a,
    {
        b -= 1;
    }
    let ghost t = cs@.skip(a as int);
    proof {
        assert forall|k: int| t.len() - (n - b) <= k < t.len() implies white_space(#[trigger] t[k]) by {
            assert(t[k] == cs@[k + a]);
        }
        lemma_trail_ws_suffix(t, (n - b) as int);
        let u = t.take(t.len() - (n - b));
        if b > a {
            assert(u.last() == cs@[b - 1]);
        }
        assert(trail_ws(u) == 0);
    }
    let mut out: Vec<char> = Vec::new();
    let mut i: usize = a;
    while i < b
        invariant
            a <= i <= b <= n,
            n == cs@.len(),
            out@ == cs@.subrange(a as int, i as int),
        decreases b - i,
    {
        out.push(cs[i]);
        i += 1;
    }
    assert(out@ == t.take(t.len() - (n - b)));
    string_of(&out)
}

/// `s.trim().is_empty()`: every character of `s` is white space.
pub fn is_blank(s: &str) -> (r: bool)
    ensures
        r == all_white(s@),
{
    let cs = chars_of(s);
    let mut i: usize = 0;
    while i < cs.len()
        invariant
            i <= cs.len(),
            cs@ == s@,
            forall|k: int| 0 <= k < i ==> white_space(#[trigger] cs@[k]),
        decreases cs.len() - i,
    {
        if !is_white_space(cs[i]) {
            return false;
        }
        i += 1;
    }
    true
}

/// Number of trailing copies of `c` in `s`.
pub open spec fn trailing_count(s: Seq<char>, c: char) -> nat
    decreases s.len(),
{
    if s.len() > 0 && s.last() == c {
        1 + trailing_count(s.drop_last(), c)
    } else {
        0
    }
}

/// Number of leading copies of `c` in `s`.
pub open spec fn leading_count(s: Seq<char>, c: char) -> nat
    decreases s.len(),
{
    if s.len() > 0 && s[0] == c {
        1 + leading_count(s.drop_first(), c)
    } else {
        0
    }
}

/// `s` with every trailing `c` removed (what `str::trim_end_matches(c)` gives).
pub open spec fn trim_end_char_spec(s: Seq<char>, c: char) -> Seq<char> {
    s.take(s.len() - trailing_count(s, c))
}

/// `s` with every leading `c` removed (what `str::trim_start_matches(c)` gives).
pub open spec fn trim_start_char_spec(s: Seq<char>, c: char) -> Seq<char> {
    s.skip(leading_count(s, c) as int)
}

proof fn lemma_trailing_count(s: Seq<char>, c: char, i: int)
    requires
        0 <= i <= s.len(),
        forall|k: int| s.len() - i <= k < s.len() ==> #[trigger] s[k] == c,
    ensures
        trailing_count(s, c) == i + trailing_count(s.take(s.len() - i), c),
    decreases i,
{
    if i > 0 {
        let t = s.drop_last();
        assert forall|k: int| t.len() - (i - 1) <= k < t.len() implies #[trigger] t[k] == c by {
            assert(t[k] == s[k]);
        }
        lemma_trailing_count(t, c, i - 1);
        assert(t.take(t.len() - (i - 1)) == s.take(s.len() - i));
    } else {
        assert(s.take(s.len() as int) == s);
    }
}

proof fn lemma_leading_count(s: Seq<char>, c: char, i: int)
    requires
        0 <= i <= s.len(),
        forall|k: int| 0 <= k < i ==> #[trigger] s[k] == c,
    ensures
        leading_count(s, c) == i + leading_count(s.skip(i), c),
    decreases i,
{
    if i > 0 {
        let t = s.drop_first();
        assert forall|k: int| 0 <= k < i - 1 implies #[trigger] t[k] == c by {
            assert(t[k] == s[k + 1]);
        }
        lemma_leading_count(t, c, i - 1);
        assert(t.skip(i - 1) == s.skip(i));
    } else {
        assert(s.skip(0) == s);
    }
}

proof fn lemma_trailing_count_bound(s: Seq<char>, c: char)
    ensures
        trailing_count(s, c) <= s.len(),
    decreases s.len(),
{
    if s.len() > 0 && s.last() == c {
        lemma_trailing_count_bound(s.drop_last(), c);
    }
}

/// After trimming trailing copies of `c`, the text is empty or does not end
/// with `c`.
pub proof fn lemma_trim_end_char_last(s: Seq<char>, c: char)
    ensures
        trim_end_char_spec(s, c).len() == 0 || trim_end_char_spec(s, c).last() != c,
    decreases s.len(),
{
    if s.len() > 0 && s.last() == c {
        let t = s.drop_last();
        lemma_trim_end_char_last(t, c);
        lemma_trailing_count_bound(t, c);
        assert(trim_end_char_spec(s, c) =~= trim_end_char_spec(t, c));
    } else if s.len() > 0 {
        assert(trim_end_char_spec(s, c) == s);
    }
}

/// `str::trim_end_matches(c)` for a single character `c`.
pub fn trim_end_char(s: &str, c: char) -> (r: String)
    ensures
        r@ == trim_end_char_spec(s@, c),
{
    let cs = chars_of(s);
    let n = cs.len();
    let mut b: usize = n;
    while b > 0 && cs[b - 1] == c
        invariant
            b <= n,
            n == cs@.len(),
            forall|k: int| b <= k < n ==> #[trigger] cs@[k] == c,
        decreases b,
    {
        b -= 1;
    }
    proof {
        lemma_trailing_count(cs@, c, (n - b) as int);
        let u = cs@.take(b as int);
        if b > 0 {
            assert(u.last() == cs@[b - 1]);
        }
        assert(trailing_count(u, c) == 0);
    }
    let mut out: Vec<char> = Vec::new();
    let mut i: usize = 0;
    while i < b
        invariant
            i <= b <= n,
            n == cs@.len(),
            out@ == cs@.take(i as int),
        decreases b - i,
    {
        out.push(cs[i]);
        assert(cs@.take(i + 1) == cs@.take(i as int).push(cs@[i as int]));
        i += 1;
    }
    string_of(&out)
}

/// `str::trim_start_matches(c)` for a single character `c`.
pub fn trim_start_char(s: &str, c: char) -> (r: String)
    ensures
        r@ == trim_start_char_spec(s@, c),
{
    let cs = chars_of(s);
    let n = cs.len();
    let mut a: usize = 0;
    while a < n && cs[a] == c
        invariant
            a <= n,
            n == cs@.len(),
            forall|k: int| 0 <= k < a ==> #[trigger] cs@[k] == c,
        decreases n - a,
    {
        a += 1;
    }
    proof {
        lemma_leading_count(cs@, c, a as int);
        let u = cs@.skip(a as int);
        if a < n {
            assert(u[0] == cs@[a as int]);
        }
        assert(leading_count(u, c) == 0);
    }
    let mut out: Vec<char> = Vec::new();
    let mut i: usize = a;
    while i < n
        invariant
            a <= i <= n,
            n == cs@.len(),
            out@ == cs@.subrange(a as int, i as int),
        decreases n - i,
    {
        out.push(cs[i]);
        i += 1;
    }
    string_of(&out)
}

/// Whether `c` occurs in `s`.
pub fn contains_char(s: &str, c: char) -> (r: bool)
    ensures
        r == s@.contains(c),
{
    let cs = chars_of(s);
    let mut i: usize = 0;
    while i < cs.len()
        invariant
            i <= cs.len(),
            cs@ == s@,
            forall|k: int| 0 <= k < i ==> cs@[k] != c,
        decreases cs.len() - i,
    {
        if cs[i] == c {
            assert(s@[i as int] == c);
            return true;
        }
        i += 1;
    }
    false
}

/// Whether two texts are equal.
pub fn str_eq(a: &str, b: &str) -> (r: bool)
    ensures
        r == (a@ == b@),
{
    let x = chars_of(a);
    let y = chars_of(b);
    if x.len() != y.len() {
        return false;
    }
    let mut i: usize = 0;
    while i < x.len()
        invariant
            i <= x.len(),
            x.len() == y.len(),
            x@ == a@,
            y@ == b@,
            forall|k: int| 0 <= k < i ==> x@[k] == y@[k],
        decreases x.len() - i,
    {
        if x[i] != y[i] {
            return false;
        }
        i += 1;
    }
    assert(x@ =~= y@);
    true
}

/// The words of `words` separated by `sep` (what `slice::join(sep)` gives).
pub open spec fn join_spec(words: Seq<Seq<char>>, sep: Seq<char>) -> Seq<char>
    decreases words.len(),
{
    if words.len() == 0 {
        Seq::empty()
    } else if words.len() == 1 {
        words[0]
    } else {
        join_spec(words.drop_last(), sep) + sep + words.last()
    }
}

/// The views of a vector of strings.
pub open spec fn views(v: Seq<String>) -> Seq<Seq<char>> {
    v.map_values(|s: String| s@)
}

/// `words.join(sep)`.
pub fn join(words: &Vec<String>, sep: &str) -> (r: String)
    ensures
        r@ == join_spec(views(words@), sep@),
{
    let mut r = String::new();
    let mut i: usize = 0;
    while i < words.len()
        invariant
            i <= words.len(),
            r@ == join_spec(views(words@).take(i as int), sep@),
        decreases words.len() - i,
    {
        let ghost vs = views(words@);
        proof {
            assert(vs.take(i + 1).drop_last() == vs.take(i as int));
            assert(vs.take(i + 1).last() == words@[i as int]@);
        }
        if i > 0 {
            r.append(sep);
        }
        r.append(words[i].as_str());
        i += 1;
    }
    assert(views(words@).take(words.len() as int) == views(words@));
    r
}

/// `s` with every `from` replaced by the text `to`.
pub open spec fn replace_char_spec(s: Seq<char>, from: char, to: Seq<char>) -> Seq<char>
    decreases s.len(),
{
    if s.len() == 0 {
        Seq::empty()
    } else {
        replace_char_spec(s.drop_last(), from, to) + (if s.last() == from {
            to
        } else {
            seq![s.last()]
        })
    }
}

/// `s.replace(from, to)` for a single character `from`.
pub fn replace_char(s: &str, from: char, to: &str) -> (r: String)
    ensures
        r@ == replace_char_spec(s@, from, to@),
{
    let cs = chars_of(s);
    let mut r = String::new();
    let mut i: usize = 0;
    while i < cs.len()
        invariant
            i <= cs.len(),
            cs@ == s@,
            r@ == replace_char_spec(cs@.take(i as int), from, to@),
        decreases cs.len() - i,
    {
        proof {
            assert(cs@.take(i + 1).drop_last() == cs@.take(i as int));
            assert(cs@.take(i + 1).last() == cs@[i as int]);
        }
        if cs[i] == from {
            r.append(to);
        } else {
            push_char(&mut r, cs[i]);
            assert(seq![cs@[i as int]] == Seq::<char>::empty().push(cs@[i as int]));
        }
        i += 1;
    }
    assert(cs@.take(cs.len() as int) == cs@);
    r
}

/// Number of bytes of the UTF-8 encoding of `c`.
pub open spec fn utf8_width(c: char) -> nat {
    if (c as u32) <= 0x7F {
        1
    } else if (c as u32) <= 0x7FF {
        2
    } else if (c as u32) <= 0xFFFF {
        3
    } else {
        4
    }
}

/// Number of bytes of the UTF-8 encoding of `s` (what `str::len` gives).
pub open spec fn utf8_len(s: Seq<char>) -> nat
    decreases s.len(),
{
    if s.len() == 0 {
        0
    } else {
        utf8_len(s.drop_last()) + utf8_width(s.last())
    }
}

fn char_width(c: char) -> (r: usize)
    ensures
        r == utf8_width(c),
{
    let u = c as u32;
    if u <= 0x7F {
        1
    } else if u <= 0x7FF {
        2
    } else if u <= 0xFFFF {
        3
    } else {
        4
    }
}

/// Whether the UTF-8 encoding of `s` has at least `n` bytes (`s.len() >= n`).
pub fn utf8_len_at_least(s: &str, n: usize) -> (r: bool)
    ensures
        r == (utf8_len(s@) >= n),
{
    let cs = chars_of(s);
    let mut acc: usize = 0;
    let mut i: usize = 0;
    if n == 0 {
        return true;
    }
    while i < cs.len()
        invariant
            i <= cs.len(),
            cs@ == s@,
            acc == utf8_len(cs@.take(i as int)),
            acc < n,
        decreases cs.len() - i,
    {
        assert(cs@.take(i + 1).drop_last() == cs@.take(i as int));
        let w = char_width(cs[i]);
        if w >= n - acc {
            proof {
                lemma_utf8_len_prefix(cs@, i + 1);
            }
            return true;
        }
        acc = acc + w;
        i += 1;
    }
    assert(cs@.take(cs.len() as int) == cs@);
    false
}

proof fn lemma_utf8_len_prefix(s: Seq<char>, i: int)
    requires
        0 <= i <= s.len(),
    ensures
        utf8_len(s.take(i)) <= utf8_len(s),
    decreases s.len() - i,
{
    if i < s.len() {
        lemma_utf8_len_prefix(s, i + 1);
        assert(s.take(i + 1).drop_last() == s.take(i));
    } else {
        assert(s.take(i) == s);
    }
}

/// The decimal digit for `d < 10`.
pub open spec fn digit_char(d: nat) -> char {
    ((d + 48) as u8) as char
}

/// The decimal text of `n`, with no leading zeros (what `n.to_string()` gives).
pub open spec fn decimal(n: nat) -> Seq<char>
    decreases n,
{
    if n < 10 {
        seq![digit_char(n)]
    } else {
        decimal(n / 10).push(digit_char(n % 10))
    }
}

fn decimal_chars(n: u64) -> (r: Vec<char>)
    ensures
        r@ == decimal(n as nat),
    decreases n,
{
    let d: u8 = (n % 10) as u8;
    let c: char = (d + 48u8) as char;
    if n < 10 {
        let mut v: Vec<char> = Vec::new();
        v.push(c);
        v
    } else {
        let mut v = decimal_chars(n / 10);
        v.push(c);
        v
    }
}

/// `n.to_string()` for an unsigned integer.
pub fn decimal_string(n: u64) -> (r: String)
    ensures
        r@ == decimal(n as nat),
{
    let v = decimal_chars(n);
    string_of(&v)
}

} // verus!
