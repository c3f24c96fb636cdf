use vstd::prelude::*;
use vstd::string::StringExecFns;
use vstd::std_specs::iter::IteratorSpec;

verus! {

/// The decimal digits of `n`, most significant first, with no leading zero.
pub open spec fn decimal(n: nat) -> Seq<char>
    decreases n,
{
    if n < 10 {
        seq![digit_char((n % 10) as nat)]
    } else {
        decimal(n / 10).push(digit_char((n % 10) as nat))
    }
}

/// The character of a decimal digit.
pub open spec fn digit_char(d: nat) -> char {
    if d == 0 { '0' }
    else if d == 1 { '1' }
    else if d == 2 { '2' }
    else if d == 3 { '3' }
    else if d == 4 { '4' }
    else if d == 5 { '5' }
    else if d == 6 { '6' }
    else if d == 7 { '7' }
    else if d == 8 { '8' }
    else { '9' }
}

fn digit(d: u128) -> (c: char)
    requires
        d < 10,
    ensures
        c == digit_char(d as nat),
{
    if d == 0 { '0' }
    else if d == 1 { '1' }
    else if d == 2 { '2' }
    else if d == 3 { '3' }
    else if d == 4 { '4' }
    else if d == 5 { '5' }
    else if d == 6 { '6' }
    else if d == 7 { '7' }
    else if d == 8 { '8' }
    else { '9' }
}

/// Appends one character to a `String` (std's `String::push`).
#[verifier::external_body]
pub(crate) fn push_char(s: &mut String, c: char)
    ensures
        final(s)@ == old(s)@.push(c),
{
    s.push(c)
}

/// Compares two string slices for equality of their characters (std's `str == str`).
#[verifier::external_body]
pub(crate) fn str_eq(a: &str, b: &str) -> (r: bool)
    ensures
        r == (a@ == b@),
{
    a == b
}

/// What std's `Debug` formatting makes of a string: the text in double quotes, with escapes.
pub uninterp spec fn debug_rendering(s: Seq<char>) -> Seq<char>;

/// Renders a string as std's `<str as Debug>::fmt` does. The contract names the result and
/// claims only that it depends on the characters of `s` alone.
#[verifier::external_body]
pub(crate) fn debug_quote(s: &str) -> (r: String)
    ensures
        r@ == debug_rendering(s@),
{
    format!("{:?}", s)
}

/// Appends the decimal rendering of `n` to `out`.
pub fn push_decimal(out: &mut String, n: u128)
    ensures
        final(out)@ == old(out)@ + decimal(n as nat),
    decreases n,
{
    if n < 10 {
        push_char(out, digit(n));
    } else {
        push_decimal(out, n / 10);
        push_char(out, digit(n % 10));
    }
}

/// The decimal rendering of `n`.
pub fn decimal_string(n: u128) -> (s: String)
    ensures
        s@ == decimal(n as nat),
{
    let mut s = String::new();
    push_decimal(&mut s, n);
    assert(s@ =~= decimal(n as nat));
    s
}

/// `a` followed by `b`, as a new string.
pub fn concat2(a: &str, b: &str) -> (s: String)
    ensures
        s@ == a@ + b@,
{
    let mut s = a.to_owned();
    s.append(b);
    s
}

/// `a`, `b` and `c` in sequence, as a new string.
pub fn concat3(a: &str, b: &str, c: &str) -> (s: String)
    ensures
        s@ == a@ + b@ + c@,
{
    let mut s = a.to_owned();
    s.append(b);
    s.append(c);
    s
}

/// Whether `s` holds `c` somewhere.
pub open spec fn has_char(s: Seq<char>, c: char) -> bool {
    exists|i: int| 0 <= i < s.len() && s[i] == c
}

/// The characters of a string slice, in order.
pub fn chars_of(s: &str) -> (v: Vec<char>)
    ensures
        v@ == s@,
{
    let mut v: Vec<char> = Vec::new();
    let mut it = s.chars();
    let ghost all = s@;
    proof {
        vstd::string::axiom_spec_iter(s);
    }
    broadcast use vstd::string::next_postcondition;
    loop
        invariant
            it.remaining() == all.skip(v@.len() as int),
            v@ == all.take(v@.len() as int),
            v@.len() <= all.len(),
        ensures
            v@ == all,
        decreases all.len() - v@.len(),
    {
        match it.next() {
            Some(c) => {
                v.push(c);
                assert(v@ =~= all.take(v@.len() as int));
            }
            None => {
                assert(it.obeys_prophetic_iter_laws());
                assert(it.remaining().len() == 0);
                assert(v@.len() == all.len());
                assert(all.take(all.len() as int) =~= all);
                break;
            }
        }
    }
    v
}

/// Whether `needle` occurs in `hay` as a contiguous run.
pub open spec fn contains_seq(hay: Seq<char>, needle: Seq<char>) -> bool {
    exists|i: int| 0 <= i && i + needle.len() <= hay.len() && #[trigger] hay.subrange(i, i + needle.len()) == needle
}

fn occurs_at(hay: &Vec<char>, needle: &Vec<char>, i: usize) -> (r: bool)
    requires
        i + needle@.len() <= hay@.len(),
    ensures
        r == (hay@.subrange(i as int, i + needle@.len()) == needle@),
{
    let hay_len = hay.len();
    let mut k: usize = 0;
    while k < needle.len()
        invariant
            hay_len == hay@.len(),
            i + needle@.len() <= hay@.len(),
            k <= needle@.len(),
            forall|m: int| 0 <= m < k ==> #[trigger] hay@[i + m] == needle@[m],
        decreases needle@.len() - k,
    {
        if hay[i + k] != needle[k] {
            assert(hay@.subrange(i as int, i + needle@.len())[k as int] != needle@[k as int]);
            return false;
        }
        k += 1;
    }
    assert forall|m: int| 0 <= m < needle@.len() implies #[trigger] hay@.subrange(i as int, i + needle@.len())[m]
        == needle@[m] by {
        assert(hay@[i + m] == needle@[m]);
    }
    assert(hay@.subrange(i as int, i + needle@.len()) =~= needle@);
    true
}

/// Whether `needle` occurs in `hay` (std's `str::contains` with a string pattern).
pub fn str_contains(hay: &str, needle: &str) -> (r: bool)
    ensures
        r == contains_seq(hay@, needle@),
{
    let h = chars_of(hay);
    let n = chars_of(needle);
    if n.len() > h.len() {
        return false;
    }
    let last = h.len() - n.len();
    let mut i: usize = 0;
    loop
        invariant
            last == h@.len() - n@.len(),
            h@ == hay@,
            n@ == needle@,
            i <= last,
            forall|j: int| 0 <= j < i ==> #[trigger] h@.subrange(j, j + n@.len()) != n@,
        ensures
            forall|j: int| 0 <= j <= last ==> #[trigger] h@.subrange(j, j + n@.len()) != n@,
        decreases last - i,
    {
        if occurs_at(&h, &n, i) {
            return true;
        }
        if i == last {
            break;
        }
        i += 1;
    }
    false
}

/// The value of a run of decimal digits.
pub open spec fn digits_value(s: Seq<char>) -> nat
    decreases s.len(),
{
    if s.len() == 0 {
        0
    } else {
        digits_value(s.drop_last()) * 10 + digit_value(s.last())
    }
}

/// The value of one decimal digit character.
pub open spec fn digit_value(c: char) -> nat {
    (c as u32 - '0' as u32) as nat
}

/// Whether every character is an ASCII decimal digit.
pub open spec fn all_digits(s: Seq<char>) -> bool {
    forall|i: int| 0 <= i < s.len() ==> '0' <= #[trigger] s[i] && s[i] <= '9'
}

/// What std's `u64::from_str` accepts: an optional `+`, then one or more ASCII digits whose
/// value fits in 64 bits.
pub open spec fn spec_parse_u64(s: Seq<char>) -> Option<u64> {
    let body = if s.len() > 0 && s[0] == '+' { s.drop_first() } else { s };
    if body.len() > 0 && all_digits(body) && digits_value(body) <= u64::MAX {
        Some(digits_value(body) as u64)
    } else {
        None
    }
}

proof fn lemma_digits_value_prefix(s: Seq<char>, k: int)
    requires
        0 <= k <= s.len(),
        all_digits(s),
    ensures
        digits_value(s.take(k)) <= digits_value(s),
    decreases s.len(),
{
    if k < s.len() {
        assert(s.drop_last().take(k) =~= s.take(k));
        lemma_digits_value_prefix(s.drop_last(), k);
    } else {
        assert(s.take(k) =~= s);
    }
}

/// Parses a decimal `u64` as std's `u64::from_str` does.
pub fn parse_u64(s: &str) -> (r: Option<u64>)
    ensures
        r == spec_parse_u64(s@),
{
    let cs = chars_of(s);
    let start: usize = if cs.len() > 0 && cs[0] == '+' { 1 } else { 0 };
    let ghost body = if s@.len() > 0 && s@[0] == '+' { s@.drop_first() } else { s@ };
    assert(body =~= cs@.skip(start as int));
    if start >= cs.len() {
        return None;
    }
    let mut value: u64 = 0;
    let mut i: usize = start;
    while i < cs.len()
        invariant
            start <= i <= cs@.len(),
            cs@ == s@,
            body == cs@.skip(start as int),
            body == (if s@.len() > 0 && s@[0] == '+' { s@.drop_first() } else { s@ }),
            body.len() > 0,
            all_digits(body.take(i - start)),
            value as nat == digits_value(body.take(i - start)),
        decreases cs@.len() - i,
    {
        let c = cs[i];
        if c < '0' || c > '9' {
            assert(body[i - start] == c);
            assert(!all_digits(body));
            return None;
        }
        let d = (c as u32 - '0' as u32) as u64;
        assert(body.take(i + 1 - start).drop_last() =~= body.take(i - start));
        assert(body.take(i + 1 - start).last() == c);
        if value > (u64::MAX - d) / 10 {
            proof {
                assert(digits_value(body.take(i + 1 - start)) == value * 10 + d);
                assert(value * 10 + d > u64::MAX) by (nonlinear_arith)
                    requires value > (u64::MAX - d) / 10, d <= 9;
                if all_digits(body) {
                    lemma_digits_value_prefix(body, i + 1 - start);
                }
            }
            return None;
        }
        proof {
            assert(value * 10 + d <= u64::MAX) by (nonlinear_arith)
                requires value <= (u64::MAX - d) / 10, d <= 9;
        }
        value = value * 10 + d;
        i += 1;
        assert(all_digits(body.take(i - start)));
    }
    assert(body.take(i - start) =~= body);
    Some(value)
}

/// The characters of `s` from position `start` on.
pub fn substring_from(s: &str, start: usize) -> (r: String)
    requires
        start <= s@.len(),
    ensures
        r@ == s@.skip(start as int),
{
    let cs = chars_of(s);
    let mut r = String::new();
    let mut i: usize = start;
    while i < cs.len()
        invariant
            cs@ == s@,
            start <= i <= cs@.len(),
            r@ == cs@.subrange(start as int, i as int),
        decreases cs@.len() - i,
    {
        push_char(&mut r, cs[i]);
        i += 1;
        assert(r@ =~= cs@.subrange(start as int, i as int));
    }
    assert(r@ =~= s@.skip(start as int));
    r
}

/// Whether `s` begins with `prefix`.
pub open spec fn has_prefix(s: Seq<char>, prefix: Seq<char>) -> bool {
    prefix.len() <= s.len() && s.take(prefix.len() as int) == prefix
}

/// Whether `s` begins with `prefix` (std's `str::starts_with` with a string pattern).
pub fn str_starts_with(s: &str, prefix: &str) -> (r: bool)
    ensures
        r == has_prefix(s@, prefix@),
{
    let cs = chars_of(s);
    let ps = chars_of(prefix);
    if ps.len() > cs.len() {
        return false;
    }
    let r = occurs_at(&cs, &ps, 0);
    proof {
        assert(cs@.subrange(0, ps@.len() as int) =~= cs@.take(ps@.len() as int));
    }
    r
}

/// The position of the first `c` in `s`, or the length of `s` when there is none.
pub open spec fn find_char(s: Seq<char>, c: char) -> int
    decreases s.len(),
{
    if s.len() == 0 {
        0
    } else if s[0] == c {
        0
    } else {
        1 + find_char(s.drop_first(), c)
    }
}

/// What `find_char` finds: no `c` before it, and `c` at it unless it is the end.
pub proof fn lemma_find_char(s: Seq<char>, c: char)
    ensures
        0 <= find_char(s, c) <= s.len(),
        forall|k: int| 0 <= k < find_char(s, c) ==> s[k] != c,
        find_char(s, c) < s.len() ==> s[find_char(s, c)] == c,
    decreases s.len(),
{
    if s.len() > 0 && s[0] != c {
        lemma_find_char(s.drop_first(), c);
        assert forall|k: int| 0 <= k < find_char(s, c) implies s[k] != c by {
            if k > 0 {
                assert(s[k] == s.drop_first()[k - 1]);
            }
        }
    }
}

/// `find_char` is the first position of `c`.
pub proof fn lemma_find_char_unique(s: Seq<char>, c: char, i: int)
    requires
        0 <= i <= s.len(),
        forall|k: int| 0 <= k < i ==> s[k] != c,
        i < s.len() ==> s[i] == c,
    ensures
        find_char(s, c) == i,
    decreases s.len(),
{
    if s.len() > 0 && s[0] != c {
        assert forall|k: int| 0 <= k < i - 1 implies s.drop_first()[k] != c by {
            assert(s.drop_first()[k] == s[k + 1]);
        }
        lemma_find_char_unique(s.drop_first(), c, i - 1);
    }
}

/// The position of the first `c` among `cs`, or their number when there is none.
pub fn find_char_exec(cs: &Vec<char>, c: char) -> (r: usize)
    ensures
        r == find_char(cs@, c),
{
    let mut i: usize = 0;
    while i < cs.len()
        invariant
            i <= cs@.len(),
            forall|k: int| 0 <= k < i ==> cs@[k] != c,
        decreases cs@.len() - i,
    {
        if cs[i] == c {
            proof {
                lemma_find_char_unique(cs@, c, i as int);
            }
            return i;
        }
        i += 1;
    }
    proof {
        lemma_find_char_unique(cs@, c, i as int);
    }
    i
}

/// The text before the first `c` (the first item of std's `str::split` by a character).
pub open spec fn before_char(s: Seq<char>, c: char) -> Seq<char> {
    s.take(find_char(s, c))
}

/// The second item of std's `str::split` by a character: the text between the first and the
/// second `c`, if `s` holds a `c` at all.
pub open spec fn second_segment(s: Seq<char>, c: char) -> Option<Seq<char>> {
    if find_char(s, c) < s.len() {
        Some(before_char(s.skip(find_char(s, c) + 1), c))
    } else {
        None
    }
}

/// The text before the first `c`.
pub fn before_char_exec(s: &str, c: char) -> (r: String)
    ensures
        r@ == before_char(s@, c),
{
    let cs = chars_of(s);
    let end = find_char_exec(&cs, c);
    proof {
        lemma_find_char(cs@, c);
    }
    let mut r = String::new();
    let mut i: usize = 0;
    while i < end
        invariant
            end == find_char(cs@, c),
            end <= cs@.len(),
            i <= end,
            r@ == cs@.take(i as int),
        decreases end - i,
    {
        push_char(&mut r, cs[i]);
        i += 1;
        assert(r@ =~= cs@.take(i as int));
    }
    r
}

/// The second item of splitting `s` by `c`, if any.
pub fn second_segment_exec(s: &str, c: char) -> (r: Option<String>)
    ensures
        match r {
            Some(t) => second_segment(s@, c) == Some(t@),
            None => second_segment(s@, c) is None,
        },
{
    let cs = chars_of(s);
    let first = find_char_exec(&cs, c);
    proof {
        lemma_find_char(cs@, c);
    }
    if first >= cs.len() {
        return None;
    }
    let rest = substring_from(s, first + 1);
    Some(before_char_exec(rest.as_str(), c))
}

/// The ASCII lowercase of a character; other characters are unchanged.
pub open spec fn ascii_lower(c: char) -> char {
    if 'A' <= c && c <= 'Z' {
        ((c as u32) + 32) as char
    } else {
        c
    }
}

/// The ASCII lowercase of a string (std's `str::to_ascii_lowercase`).
pub open spec fn ascii_lowercase(s: Seq<char>) -> Seq<char> {
    s.map_values(|c: char| ascii_lower(c))
}

/// The ASCII lowercase of a string.
pub fn to_ascii_lowercase(s: &str) -> (r: String)
    ensures
        r@ == ascii_lowercase(s@),
{
    let cs = chars_of(s);
    let mut r = String::new();
    let mut i: usize = 0;
    while i < cs.len()
        invariant
            cs@ == s@,
            i <= cs@.len(),
            r@ == ascii_lowercase(cs@.take(i as int)),
        decreases cs@.len() - i,
    {
        let c = cs[i];
        let lower = if 'A' <= c && c <= 'Z' {
            ((c as u32) + 32) as u8 as char
        } else {
            c
        };
        push_char(&mut r, lower);
        i += 1;
        assert(r@ =~= ascii_lowercase(cs@.take(i as int)));
    }
    assert(cs@.take(cs@.len() as int) =~= cs@);
    r
}

/// Whether a character has the Unicode `White_Space` property (std's `char::is_whitespace`).
pub open spec fn is_whitespace(c: char) -> bool {
    ||| ('\u{9}' <= c && c <= '\u{d}')
    ||| c == ' '
    ||| c == '\u{85}'
    ||| c == '\u{a0}'
    ||| c == '\u{1680}'
    ||| ('\u{2000}' <= c && c <= '\u{200a}')
    ||| c == '\u{2028}'
    ||| c == '\u{2029}'
    ||| c == '\u{202f}'
    ||| c == '\u{205f}'
    ||| c == '\u{3000}'
}

fn is_whitespace_exec(c: char) -> (r: bool)
    ensures
        r == is_whitespace(c),
{
    ('\u{9}' <= c && c <= '\u{d}') || c == ' ' || c == '\u{85}' || c == '\u{a0}' || c == '\u{1680}' || ('\u{2000}' <= c
        && c <= '\u{200a}') || c == '\u{2028}' || c == '\u{2029}' || c == '\u{202f}' || c == '\u{205f}' || c == '\u{3000}'
}

/// Whether nothing is left of `s` once whitespace is trimmed from both ends.
pub open spec fn blank(s: Seq<char>) -> bool {
    forall|i: int| 0 <= i < s.len() ==> is_whitespace(#[trigger] s[i])
}

/// Whether `s.trim()` is empty.
pub fn is_blank(s: &str) -> (r: bool)
    ensures
        r == blank(s@),
{
    let cs = chars_of(s);
    let mut i: usize = 0;
    while i < cs.len()
        invariant
            cs@ == s@,
            i <= cs@.len(),
            forall|k: int| 0 <= k < i ==> is_whitespace(#[trigger] cs@[k]),
        decreases cs@.len() - i,
    {
        if !is_whitespace_exec(cs[i]) {
            return false;
        }
        i += 1;
    }
    true
}

/// A hexadecimal digit in lower case.
pub open spec fn hex_digit(n: nat) -> char {
    if n < 10 {
        (('0' as nat) + n) as char
    } else {
        (('a' as nat) + n - 10) as char
    }
}

/// Bytes as lower-case hexadecimal, two digits per byte, high nibble first.
pub open spec fn hex_lower(bytes: Seq<u8>) -> Seq<char>
    decreases bytes.len(),
{
    if bytes.len() == 0 {
        Seq::empty()
    } else {
        hex_lower(bytes.drop_last()) + seq![hex_digit((bytes.last() / 16) as nat), hex_digit((bytes.last() % 16) as nat)]
    }
}

/// Lower-case hexadecimal has two digits per byte.
pub proof fn lemma_hex_lower_len(bytes: Seq<u8>)
    ensures
        hex_lower(bytes).len() == 2 * bytes.len(),
    decreases bytes.len(),
{
    if bytes.len() > 0 {
        lemma_hex_lower_len(bytes.drop_last());
    }
}

/// Encodes bytes as lower-case hexadecimal with `hex::encode`, which the crate documents as
/// two lower-case digits per byte, in order.
#[verifier::external_body]
pub(crate) fn hex_encode(bytes: &[u8]) -> (r: String)
    ensures
        r@ == hex_lower(bytes@),
{
    hex::encode(bytes)
}

/// `s` without leading whitespace.
pub open spec fn trim_start(s: Seq<char>) -> Seq<char>
    decreases s.len(),
{
    if s.len() > 0 && is_whitespace(s[0]) {
        trim_start(s.drop_first())
    } else {
        s
    }
}

/// `s` without trailing whitespace.
pub open spec fn trim_end(s: Seq<char>) -> Seq<char>
    decreases s.len(),
{
    if s.len() > 0 && is_whitespace(s.last()) {
        trim_end(s.drop_last())
    } else {
        s
    }
}

/// `s` without leading and trailing whitespace (std's `str::trim`).
pub open spec fn trimmed(s: Seq<char>) -> Seq<char> {
    trim_end(trim_start(s))
}

/// `s` without leading and trailing whitespace.
pub fn trim(s: &str) -> (r: String)
    ensures
        r@ == trimmed(s@),
{
    let cs = chars_of(s);
    let mut start: usize = 0;
    assert(cs@.skip(0) =~= cs@);
    while start < cs.len() && is_whitespace_exec(cs[start])
        invariant
            start <= cs@.len(),
            trim_start(cs@) == trim_start(cs@.skip(start as int)),
        decreases cs@.len() - start,
    {
        assert(cs@.skip(start as int).drop_first() =~= cs@.skip(start + 1));
        start += 1;
    }
    let ghost rest = cs@.skip(start as int);
    assert(trim_start(rest) == rest);
    let mut end: usize = cs.len();
    while end > start && is_whitespace_exec(cs[end - 1])
        invariant
            start <= end <= cs@.len(),
            trim_end(rest) == trim_end(cs@.subrange(start as int, end as int)),
            rest == cs@.skip(start as int),
        decreases end,
    {
        assert(cs@.subrange(start as int, end as int).drop_last() =~= cs@.subrange(start as int, end - 1));
        end -= 1;
    }
    let mut r = String::new();
    let mut i: usize = start;
    while i < end
        invariant
            start <= i <= end <= cs@.len(),
            r@ == cs@.subrange(start as int, i as int),
        decreases end - i,
    {
        push_char(&mut r, cs[i]);
        i += 1;
        assert(r@ =~= cs@.subrange(start as int, i as int));
    }
    proof {
        let t = cs@.subrange(start as int, end as int);
        assert(cs@.skip(0) =~= cs@);
        if end > start {
            assert(!is_whitespace(t.last()));
        }
        assert(trim_end(t) == t);
    }
    r
}

/// The pieces of `s` between newlines, each without a carriage return that ends it; a final
/// newline opens no further line (std's `str::lines`).
pub open spec fn text_lines(s: Seq<char>) -> Seq<Seq<char>>
    decreases s.len(),
{
    if s.len() == 0 {
        Seq::empty()
    } else {
        let n = find_char(s, '\n');
        let piece = s.take(n);
        let line = if piece.len() > 0 && piece.last() == '\r' { piece.drop_last() } else { piece };
        if n >= s.len() {
            seq![line]
        } else {
            proof {
                lemma_find_char(s, '\n');
            }
            seq![line] + text_lines(s.skip(n + 1))
        }
    }
}

/// The lines of `s`.
pub fn lines_of(s: &str) -> (r: Vec<String>)
    ensures
        r@.len() == text_lines(s@).len(),
        forall|k: int| 0 <= k < r@.len() ==> (#[trigger] r@[k])@ == text_lines(s@)[k],
{
    let cs = chars_of(s);
    let mut out: Vec<String> = Vec::new();
    let mut pos: usize = 0;
    let ghost mut done: Seq<Seq<char>> = Seq::empty();
    assert(cs@.skip(0) =~= cs@);
    assert(done + text_lines(cs@.skip(0)) =~= text_lines(s@));
    while pos < cs.len()
        invariant
            cs@ == s@,
            pos <= cs@.len(),
            text_lines(s@) == done + text_lines(cs@.skip(pos as int)),
            out@.len() == done.len(),
            forall|k: int| 0 <= k < out@.len() ==> (#[trigger] out@[k])@ == done[k],
        decreases cs@.len() - pos,
    {
        let ghost rest = cs@.skip(pos as int);
        let mut end: usize = pos;
        while end < cs.len() && cs[end] != '\n'
            invariant
                pos <= end <= cs@.len(),
                forall|k: int| pos <= k < end ==> cs@[k] != '\n',
            decreases cs@.len() - end,
        {
            end += 1;
        }
        proof {
            lemma_find_char_unique(rest, '\n', end - pos);
        }
        let mut line = String::new();
        let mut stop = end;
        if stop > pos && cs[stop - 1] == '\r' {
            stop = stop - 1;
        }
        let mut i: usize = pos;
        while i < stop
            invariant
                pos <= i <= stop <= end <= cs@.len(),
                line@ == cs@.subrange(pos as int, i as int),
            decreases stop - i,
        {
            push_char(&mut line, cs[i]);
            i += 1;
            assert(line@ =~= cs@.subrange(pos as int, i as int));
        }
        proof {
            let piece = rest.take(end - pos);
            assert(piece =~= cs@.subrange(pos as int, end as int));
            let expected = if piece.len() > 0 && piece.last() == '\r' { piece.drop_last() } else { piece };
            assert(line@ =~= expected);
            if end < cs.len() {
                assert(rest.skip(end - pos + 1) =~= cs@.skip(end + 1));
                done = done.push(expected);
                assert(text_lines(rest) == seq![expected] + text_lines(rest.skip(end - pos + 1)));
            } else {
                done = done.push(expected);
                assert(text_lines(rest) == seq![expected]);
            }
        }
        out.push(line);
        if end < cs.len() {
            pos = end + 1;
        } else {
            pos = end;
        }
        proof {
            if pos == cs.len() {
                assert(cs@.skip(pos as int).len() == 0);
            }
        }
    }
    proof {
        assert(cs@.skip(pos as int).len() == 0);
        assert(done + text_lines(cs@.skip(pos as int)) =~= done);
    }
    out
}

/// The position of the first whitespace character of `s`, or its length when there is none.
pub open spec fn find_whitespace(s: Seq<char>) -> int
    decreases s.len(),
{
    if s.len() == 0 {
        0
    } else if is_whitespace(s[0]) {
        0
    } else {
        1 + find_whitespace(s.drop_first())
    }
}

/// What `find_whitespace` finds: no whitespace before it, whitespace at it unless it is the end.
pub proof fn lemma_find_whitespace(s: Seq<char>)
    ensures
        0 <= find_whitespace(s) <= s.len(),
        forall|k: int| 0 <= k < find_whitespace(s) ==> !is_whitespace(#[trigger] s[k]),
        find_whitespace(s) < s.len() ==> is_whitespace(s[find_whitespace(s)]),
    decreases s.len(),
{
    if s.len() > 0 && !is_whitespace(s[0]) {
        lemma_find_whitespace(s.drop_first());
        assert forall|k: int| 0 <= k < find_whitespace(s) implies !is_whitespace(#[trigger] s[k]) by {
            if k > 0 {
                assert(s[k] == s.drop_first()[k - 1]);
            }
        }
    }
}

/// `trim_start` only drops characters from the front.
pub proof fn lemma_trim_start(s: Seq<char>)
    ensures
        trim_start(s).len() <= s.len(),
        trim_start(s) == s.skip(s.len() - trim_start(s).len()),
        trim_start(s).len() > 0 ==> !is_whitespace(trim_start(s)[0]),
    decreases s.len(),
{
    if s.len() > 0 && is_whitespace(s[0]) {
        lemma_trim_start(s.drop_first());
        assert(s.drop_first().skip(s.drop_first().len() - trim_start(s).len()) =~= s.skip(
            s.len() - trim_start(s).len(),
        ));
    } else {
        assert(s.skip(0) =~= s);
    }
}

/// The characters `trim_start` drops are whitespace.
proof fn lemma_trim_start_drops_whitespace(s: Seq<char>)
    ensures
        trim_start(s).len() <= s.len(),
        forall|i: int| 0 <= i < s.len() - trim_start(s).len() ==> is_whitespace(#[trigger] s[i]),
    decreases s.len(),
{
    if s.len() > 0 && is_whitespace(s[0]) {
        lemma_trim_start_drops_whitespace(s.drop_first());
        assert forall|i: int| 0 <= i < s.len() - trim_start(s).len() implies is_whitespace(#[trigger] s[i]) by {
            if i > 0 {
                assert(s[i] == s.drop_first()[i - 1]);
            }
        }
    }
}

/// `trim_end` keeps a first character that is not whitespace.
proof fn lemma_trim_end_keeps_first(t: Seq<char>)
    requires
        t.len() > 0,
        !is_whitespace(t[0]),
    ensures
        trim_end(t).len() > 0,
        trim_end(t)[0] == t[0],
    decreases t.len(),
{
    if is_whitespace(t.last()) {
        assert(t.len() > 1);
        lemma_trim_end_keeps_first(t.drop_last());
    }
}

/// Text that is not all whitespace keeps a character that is not whitespace when trimmed.
pub proof fn lemma_trimmed_not_blank(s: Seq<char>)
    requires
        !blank(s),
    ensures
        !blank(trimmed(s)),
{
    lemma_trim_start_drops_whitespace(s);
    lemma_trim_start(s);
    let t = trim_start(s);
    if t.len() == 0 {
        assert forall|i: int| 0 <= i < s.len() implies is_whitespace(#[trigger] s[i]) by {}
        assert(false);
    }
    lemma_trim_end_keeps_first(t);
    assert(!is_whitespace(trimmed(s)[0]));
}

/// The maximal runs of non-whitespace characters of `s`, in order (std's
/// `str::split_whitespace`).
pub open spec fn words(s: Seq<char>) -> Seq<Seq<char>>
    decreases s.len(),
{
    let t = trim_start(s);
    if t.len() == 0 {
        Seq::empty()
    } else {
        let n = find_whitespace(t);
        proof {
            lemma_trim_start(s);
            lemma_find_whitespace(t);
        }
        seq![t.take(n)] + words(t.skip(n))
    }
}

/// The words of `s`.
pub fn split_whitespace(s: &str) -> (r: Vec<String>)
    ensures
        r@.len() == words(s@).len(),
        forall|k: int| 0 <= k < r@.len() ==> (#[trigger] r@[k])@ == words(s@)[k],
{
    let cs = chars_of(s);
    let mut out: Vec<String> = Vec::new();
    let ghost mut done: Seq<Seq<char>> = Seq::empty();
    let mut pos: usize = 0;
    assert(cs@.skip(0) =~= cs@);
    assert(done + words(cs@.skip(0)) =~= words(s@));
    while pos < cs.len()
        invariant
            cs@ == s@,
            pos <= cs@.len(),
            words(s@) == done + words(cs@.skip(pos as int)),
            out@.len() == done.len(),
            forall|k: int| 0 <= k < out@.len() ==> (#[trigger] out@[k])@ == done[k],
        ensures
            words(s@) == done,
            out@.len() == done.len(),
            forall|k: int| 0 <= k < out@.len() ==> (#[trigger] out@[k])@ == done[k],
        decreases cs@.len() - pos,
    {
        let ghost rest = cs@.skip(pos as int);
        let mut start = pos;
        while start < cs.len() && is_whitespace_exec(cs[start])
            invariant
                pos <= start <= cs@.len(),
                rest == cs@.skip(pos as int),
                trim_start(rest) == trim_start(cs@.skip(start as int)),
            decreases cs@.len() - start,
        {
            assert(cs@.skip(start as int).drop_first() =~= cs@.skip(start + 1));
            start += 1;
        }
        proof {
            lemma_trim_start(cs@.skip(start as int));
        }
        if start >= cs.len() {
            proof {
                assert(cs@.skip(start as int).len() == 0);
                assert(words(rest) =~= Seq::<Seq<char>>::empty());
            }
            pos = start;
            assert(cs@.skip(pos as int).len() == 0);
            assert(done + words(cs@.skip(pos as int)) =~= done);
            break;
        }
        let ghost t = cs@.skip(start as int);
        assert(trim_start(t) == t);
        let mut end = start;
        let mut word = String::new();
        while end < cs.len() && !is_whitespace_exec(cs[end])
            invariant
                start <= end <= cs@.len(),
                word@ == cs@.subrange(start as int, end as int),
                forall|k: int| start <= k < end ==> !is_whitespace(#[trigger] cs@[k]),
            decreases cs@.len() - end,
        {
            push_char(&mut word, cs[end]);
            end += 1;
            assert(word@ =~= cs@.subrange(start as int, end as int));
        }
        proof {
            lemma_find_whitespace(t);
            assert forall|k: int| 0 <= k < end - start implies !is_whitespace(#[trigger] t[k]) by {
                assert(t[k] == cs@[start + k]);
            }
            if end < cs.len() {
                assert(is_whitespace(t[end - start]));
            }
            assert(find_whitespace(t) == end - start) by {
                lemma_find_whitespace_unique(t, end - start);
            }
            assert(t.take(end - start) =~= word@);
            assert(t.skip(end - start) =~= cs@.skip(end as int));
            done = done.push(word@);
            assert(words(rest) == seq![word@] + words(cs@.skip(end as int)));
            assert(done + words(cs@.skip(end as int)) =~= (done.drop_last() + words(rest)));
        }
        out.push(word);
        pos = end;
        proof {
            if pos >= cs.len() {
                assert(cs@.skip(pos as int).len() == 0);
                assert(done + words(cs@.skip(pos as int)) =~= done);
            }
        }
    }
    out
}

/// `find_whitespace` is the first whitespace position.
pub proof fn lemma_find_whitespace_unique(s: Seq<char>, i: int)
    requires
        0 <= i <= s.len(),
        forall|k: int| 0 <= k < i ==> !is_whitespace(#[trigger] s[k]),
        i < s.len() ==> is_whitespace(s[i]),
    ensures
        find_whitespace(s) == i,
    decreases s.len(),
{
    if s.len() > 0 && !is_whitespace(s[0]) {
        assert forall|k: int| 0 <= k < i - 1 implies !is_whitespace(#[trigger] s.drop_first()[k]) by {
            assert(s.drop_first()[k] == s[k + 1]);
        }
        lemma_find_whitespace_unique(s.drop_first(), i - 1);
    }
}

} // verus!
