//! The order conflicts are reported in, and sorted lists without repeats.

use super::ProtocolBundleConflict;
use crate::text::chars_of;
use vstd::prelude::*;

verus! {

/// Text before other text: compared character by character, by code point, a proper prefix
/// first (the order of `String`, whose UTF-8 bytes keep the code point order).
pub open spec fn chars_lt(a: Seq<char>, b: Seq<char>) -> bool
    decreases a.len(),
{
    if a.len() == 0 {
        b.len() > 0
    } else if b.len() == 0 {
        false
    } else if a[0] != b[0] {
        (a[0] as u32) < (b[0] as u32)
    } else {
        chars_lt(a.drop_first(), b.drop_first())
    }
}

/// `chars_lt` is a strict total order.
pub proof fn lemma_chars_lt_order(a: Seq<char>, b: Seq<char>, c: Seq<char>)
    ensures
        !chars_lt(a, a),
        chars_lt(a, b) ==> !chars_lt(b, a),
        chars_lt(a, b) || a == b || chars_lt(b, a),
        chars_lt(a, b) && chars_lt(b, c) ==> chars_lt(a, c),
    decreases a.len(),
{
    if a.len() > 0 && b.len() > 0 {
        vstd::utf8::char_u32_cast(a[0], a[0] as u32);
        vstd::utf8::char_u32_cast(b[0], b[0] as u32);
    }
    if a.len() > 0 && b.len() > 0 && c.len() > 0 {
        lemma_chars_lt_order(a.drop_first(), b.drop_first(), c.drop_first());
        if a[0] == b[0] && a.drop_first() == b.drop_first() {
            assert(a =~= seq![a[0]] + a.drop_first());
            assert(b =~= seq![b[0]] + b.drop_first());
        }
    } else if a.len() > 0 && b.len() > 0 {
        lemma_chars_lt_order(a.drop_first(), b.drop_first(), Seq::empty());
        if a[0] == b[0] && a.drop_first() == b.drop_first() {
            assert(a =~= seq![a[0]] + a.drop_first());
            assert(b =~= seq![b[0]] + b.drop_first());
        }
    } else if a.len() > 0 {
        lemma_chars_lt_order(a.drop_first(), Seq::empty(), Seq::empty());
    }
    if a.len() == 0 && b.len() == 0 {
        assert(a =~= b);
    }
}

/// The elements of a sequence with one more at its end.
pub proof fn lemma_push_to_set<A>(s: Seq<A>, x: A)
    ensures
        s.push(x).to_set() == s.to_set().insert(x),
{
    assert forall|a: A| s.push(x).to_set().contains(a) <==> s.to_set().insert(x).contains(a) by {
        if s.push(x).to_set().contains(a) {
            let k = choose|k: int| 0 <= k < s.push(x).len() && s.push(x)[k] == a;
            if k < s.len() {
                assert(s[k] == a);
                assert(s.contains(a));
            }
        }
        if s.to_set().contains(a) {
            let k = choose|k: int| 0 <= k < s.len() && s[k] == a;
            assert(s.push(x)[k] == a);
        }
        if a == x {
            assert(s.push(x)[s.len() as int] == a);
        }
    }
    assert(s.push(x).to_set() =~= s.to_set().insert(x));
}

/// Lists of text in lexicographic order (the order of `Vec<String>`).
pub open spec fn strs_lt(a: Seq<Seq<char>>, b: Seq<Seq<char>>) -> bool
    decreases a.len(),
{
    if a.len() == 0 {
        b.len() > 0
    } else if b.len() == 0 {
        false
    } else if a[0] != b[0] {
        chars_lt(a[0], b[0])
    } else {
        strs_lt(a.drop_first(), b.drop_first())
    }
}

/// `strs_lt` is a strict total order.
pub proof fn lemma_strs_lt_order(a: Seq<Seq<char>>, b: Seq<Seq<char>>, c: Seq<Seq<char>>)
    ensures
        !strs_lt(a, a),
        strs_lt(a, b) ==> !strs_lt(b, a),
        strs_lt(a, b) || a == b || strs_lt(b, a),
        strs_lt(a, b) && strs_lt(b, c) ==> strs_lt(a, c),
    decreases a.len(),
{
    if a.len() > 0 && b.len() > 0 {
        let c1 = if c.len() > 0 { c[0] } else { Seq::empty() };
        lemma_chars_lt_order(a[0], b[0], c1);
        lemma_chars_lt_order(a[0], a[0], a[0]);
        lemma_chars_lt_order(b[0], a[0], c1);
        lemma_chars_lt_order(a[0], c1, b[0]);
        lemma_chars_lt_order(b[0], c1, a[0]);
        lemma_chars_lt_order(c1, a[0], b[0]);
        let c_rest = if c.len() > 0 { c.drop_first() } else { Seq::empty() };
        lemma_strs_lt_order(a.drop_first(), b.drop_first(), c_rest);
        if a[0] == b[0] && a.drop_first() == b.drop_first() {
            assert(a =~= seq![a[0]] + a.drop_first());
            assert(b =~= seq![b[0]] + b.drop_first());
        }
    } else if a.len() > 0 {
        lemma_strs_lt_order(a.drop_first(), Seq::empty(), Seq::empty());
    }
    if a.len() == 0 && b.len() == 0 {
        assert(a =~= b);
    }
}

/// The text fields of a conflict, in the order conflicts are compared.
pub open spec fn conflict_key(c: ProtocolBundleConflict) -> (Seq<char>, Seq<char>, Seq<char>, Seq<Seq<char>>, Seq<char>) {
    (c.code@, c.class@, c.key@, c.artifacts@.map_values(|a: String| a@), c.detail@)
}

/// Conflicts ordered by code, class, key, artifacts and detail (the derived order).
pub open spec fn conflict_lt(
    x: (Seq<char>, Seq<char>, Seq<char>, Seq<Seq<char>>, Seq<char>),
    y: (Seq<char>, Seq<char>, Seq<char>, Seq<Seq<char>>, Seq<char>),
) -> bool {
    if x.0 != y.0 {
        chars_lt(x.0, y.0)
    } else if x.1 != y.1 {
        chars_lt(x.1, y.1)
    } else if x.2 != y.2 {
        chars_lt(x.2, y.2)
    } else if x.3 != y.3 {
        strs_lt(x.3, y.3)
    } else {
        chars_lt(x.4, y.4)
    }
}

/// `conflict_lt` is a strict total order.
pub proof fn lemma_conflict_lt_order(
    a: (Seq<char>, Seq<char>, Seq<char>, Seq<Seq<char>>, Seq<char>),
    b: (Seq<char>, Seq<char>, Seq<char>, Seq<Seq<char>>, Seq<char>),
    c: (Seq<char>, Seq<char>, Seq<char>, Seq<Seq<char>>, Seq<char>),
)
    ensures
        !conflict_lt(a, a),
        conflict_lt(a, b) ==> !conflict_lt(b, a),
        conflict_lt(a, b) || a == b || conflict_lt(b, a),
        conflict_lt(a, b) && conflict_lt(b, c) ==> conflict_lt(a, c),
{
    lemma_chars_lt_order(a.0, b.0, c.0);
    lemma_chars_lt_order(b.0, a.0, c.0);
    lemma_chars_lt_order(a.0, c.0, b.0);
    lemma_chars_lt_order(a.1, b.1, c.1);
    lemma_chars_lt_order(b.1, a.1, c.1);
    lemma_chars_lt_order(a.1, c.1, b.1);
    lemma_chars_lt_order(a.2, b.2, c.2);
    lemma_chars_lt_order(b.2, a.2, c.2);
    lemma_chars_lt_order(a.2, c.2, b.2);
    lemma_strs_lt_order(a.3, b.3, c.3);
    lemma_strs_lt_order(b.3, a.3, c.3);
    lemma_strs_lt_order(a.3, c.3, b.3);
    lemma_chars_lt_order(a.4, b.4, c.4);
    lemma_chars_lt_order(b.4, a.4, c.4);
    lemma_chars_lt_order(a.4, c.4, b.4);
}

/// Texts in strictly increasing order: sorted, with no text twice.
pub open spec fn strs_sorted(s: Seq<Seq<char>>) -> bool {
    forall|i: int, j: int| 0 <= i < j < s.len() ==> chars_lt(#[trigger] s[i], #[trigger] s[j])
}

/// Conflicts in strictly increasing order: sorted, with no conflict twice.
pub open spec fn conflicts_sorted(s: Seq<ProtocolBundleConflict>) -> bool {
    forall|i: int, j: int|
        0 <= i < j < s.len() ==> conflict_lt(conflict_key(#[trigger] s[i]), conflict_key(#[trigger] s[j]))
}

/// The texts of a list of strings.
pub open spec fn texts(v: Seq<String>) -> Seq<Seq<char>> {
    v.map_values(|s: String| s@)
}

/// -1, 0 or 1 as `a` comes before, equals or comes after `b`.
pub fn compare_text(a: &str, b: &str) -> (r: i8)
    ensures
        r == -1 <==> chars_lt(a@, b@),
        r == 0 <==> a@ == b@,
        r == 1 <==> chars_lt(b@, a@),
        r == -1 || r == 0 || r == 1,
{
    let x = chars_of(a);
    let y = chars_of(b);
    let mut i: usize = 0;
    proof {
        lemma_chars_lt_order(a@, b@, b@);
        assert(x@.skip(0) =~= x@);
        assert(y@.skip(0) =~= y@);
    }
    while i < x.len() && i < y.len()
        invariant
            x@ == a@,
            y@ == b@,
            i <= x@.len(),
            i <= y@.len(),
            x@.take(i as int) == y@.take(i as int),
            chars_lt(a@, b@) == chars_lt(x@.skip(i as int), y@.skip(i as int)),
            chars_lt(b@, a@) == chars_lt(y@.skip(i as int), x@.skip(i as int)),
        decreases x@.len() - i,
    {
        if x[i] != y[i] {
            proof {
                assert(x@.skip(i as int)[0] == x@[i as int]);
                assert(y@.skip(i as int)[0] == y@[i as int]);
                assert(a@[i as int] != b@[i as int]);
                vstd::utf8::char_u32_cast(x@[i as int], x@[i as int] as u32);
                vstd::utf8::char_u32_cast(y@[i as int], y@[i as int] as u32);
            }
            if (x[i] as u32) < (y[i] as u32) {
                return -1;
            } else {
                return 1;
            }
        }
        proof {
            assert(x@.skip(i as int).drop_first() =~= x@.skip(i + 1));
            assert(y@.skip(i as int).drop_first() =~= y@.skip(i + 1));
            assert(x@.take(i + 1) =~= x@.take(i as int).push(x@[i as int]));
            assert(y@.take(i + 1) =~= y@.take(i as int).push(y@[i as int]));
        }
        i += 1;
    }
    if x.len() == y.len() {
        proof {
            assert(x@ =~= x@.take(i as int));
            assert(y@ =~= y@.take(i as int));
        }
        0
    } else if i == x.len() {
        proof {
            assert(x@.skip(i as int).len() == 0);
            assert(a@ != b@);
        }
        -1
    } else {
        proof {
            assert(y@.skip(i as int).len() == 0);
            assert(a@ != b@);
        }
        1
    }
}

/// -1, 0 or 1 as the list `a` comes before, equals or comes after the list `b`.
fn compare_texts(a: &Vec<String>, b: &Vec<String>) -> (r: i8)
    ensures
        r == -1 <==> strs_lt(texts(a@), texts(b@)),
        r == 0 <==> texts(a@) == texts(b@),
        r == 1 <==> strs_lt(texts(b@), texts(a@)),
        r == -1 || r == 0 || r == 1,
{
    let ghost ta = texts(a@);
    let ghost tb = texts(b@);
    let mut i: usize = 0;
    proof {
        lemma_strs_lt_order(ta, tb, tb);
        assert(ta.skip(0) =~= ta);
        assert(tb.skip(0) =~= tb);
    }
    while i < a.len() && i < b.len()
        invariant
            ta == texts(a@),
            tb == texts(b@),
            i <= a@.len(),
            i <= b@.len(),
            ta.take(i as int) == tb.take(i as int),
            strs_lt(ta, tb) == strs_lt(ta.skip(i as int), tb.skip(i as int)),
            strs_lt(tb, ta) == strs_lt(tb.skip(i as int), ta.skip(i as int)),
        decreases a@.len() - i,
    {
        let c = compare_text(a[i].as_str(), b[i].as_str());
        proof {
            assert(ta.skip(i as int)[0] == ta[i as int]);
            assert(tb.skip(i as int)[0] == tb[i as int]);
        }
        if c != 0 {
            proof {
                lemma_chars_lt_order(ta[i as int], tb[i as int], tb[i as int]);
                assert(ta[i as int] != tb[i as int]);
            }
            return c;
        }
        proof {
            assert(ta.skip(i as int).drop_first() =~= ta.skip(i + 1));
            assert(tb.skip(i as int).drop_first() =~= tb.skip(i + 1));
            assert(ta.take(i + 1) =~= ta.take(i as int).push(ta[i as int]));
            assert(tb.take(i + 1) =~= tb.take(i as int).push(tb[i as int]));
        }
        i += 1;
    }
    if a.len() == b.len() {
        proof {
            assert(ta =~= ta.take(i as int));
            assert(tb =~= tb.take(i as int));
        }
        0
    } else if i == a.len() {
        proof {
            assert(ta.skip(i as int).len() == 0);
            assert(ta.len() != tb.len());
        }
        -1
    } else {
        proof {
            assert(tb.skip(i as int).len() == 0);
            assert(ta.len() != tb.len());
        }
        1
    }
}

/// -1, 0 or 1 as conflict `a` comes before, equals or comes after conflict `b`.
fn compare_conflicts(a: &ProtocolBundleConflict, b: &ProtocolBundleConflict) -> (r: i8)
    ensures
        r == -1 <==> conflict_lt(conflict_key(*a), conflict_key(*b)),
        r == 0 <==> conflict_key(*a) == conflict_key(*b),
        r == 1 <==> conflict_lt(conflict_key(*b), conflict_key(*a)),
        r == -1 || r == 0 || r == 1,
{
    proof {
        lemma_conflict_lt_order(conflict_key(*a), conflict_key(*b), conflict_key(*b));
        assert(texts(a.artifacts@) == conflict_key(*a).3);
        assert(texts(b.artifacts@) == conflict_key(*b).3);
    }
    let c = compare_text(a.code.as_str(), b.code.as_str());
    if c != 0 {
        return c;
    }
    let c = compare_text(a.class.as_str(), b.class.as_str());
    if c != 0 {
        return c;
    }
    let c = compare_text(a.key.as_str(), b.key.as_str());
    if c != 0 {
        return c;
    }
    let c = compare_texts(&a.artifacts, &b.artifacts);
    if c != 0 {
        return c;
    }
    compare_text(a.detail.as_str(), b.detail.as_str())
}

/// Adds `s` to a strictly sorted list of texts unless it is already there.
fn insert_text(out: &mut Vec<String>, s: String)
    requires
        strs_sorted(texts(old(out)@)),
    ensures
        strs_sorted(texts(final(out)@)),
        texts(final(out)@).to_set() == texts(old(out)@).to_set().insert(s@),
{
    let ghost before = texts(out@);
    let mut p: usize = 0;
    while p < out.len()
        invariant
            out@ == old(out)@,
            before == texts(out@),
            strs_sorted(before),
            p <= out@.len(),
            forall|k: int| 0 <= k < p ==> chars_lt(#[trigger] before[k], s@),
        ensures
            p <= out@.len(),
            forall|k: int| 0 <= k < p ==> chars_lt(#[trigger] before[k], s@),
            p < out@.len() ==> chars_lt(s@, before[p as int]),
        decreases out@.len() - p,
    {
        let c = compare_text(out[p].as_str(), s.as_str());
        if c == 0 {
            proof {
                assert(before[p as int] == s@);
                assert(before.to_set().insert(s@) =~= before.to_set());
            }
            return;
        }
        if c == 1 {
            proof {
                assert(before[p as int] == out@[p as int]@);
            }
            break;
        }
        p += 1;
    }
    let ghost sv = s@;
    out.insert(p, s);
    proof {
        let after = texts(out@);
        assert(after =~= before.insert(p as int, sv));
        assert forall|i: int, j: int| 0 <= i < j < after.len() implies chars_lt(#[trigger] after[i], #[trigger] after[j]) by {
            if i < p && j < p {
                assert(after[i] == before[i] && after[j] == before[j]);
            } else if i < p && j == p {
                assert(after[i] == before[i] && after[j] == sv);
            } else if i < p && j > p {
                assert(after[i] == before[i] && after[j] == before[j - 1]);
            } else if i == p {
                assert(after[i] == sv && after[j] == before[j - 1]);
                if j - 1 > p {
                    assert(chars_lt(before[p as int], before[j - 1]));
                    lemma_chars_lt_order(sv, before[p as int], before[j - 1]);
                }
            } else {
                assert(after[i] == before[i - 1] && after[j] == before[j - 1]);
            }
        }
        assert forall|x: Seq<char>| after.to_set().contains(x) <==> before.to_set().insert(sv).contains(x) by {
            if after.to_set().contains(x) {
                let k = choose|k: int| 0 <= k < after.len() && after[k] == x;
                if k < p {
                    assert(before[k] == x);
                } else if k > p {
                    assert(before[k - 1] == x);
                }
            }
            if before.to_set().contains(x) {
                let k = choose|k: int| 0 <= k < before.len() && before[k] == x;
                if k < p {
                    assert(after[k] == x);
                } else {
                    assert(after[k + 1] == x);
                }
            }
            if x == sv {
                assert(after[p as int] == x);
            }
        }
        assert(after.to_set() =~= before.to_set().insert(sv));
    }
}

/// The texts, sorted and without repeats.
pub fn sorted_texts(v: &Vec<String>) -> (r: Vec<String>)
    ensures
        strs_sorted(texts(r@)),
        texts(r@).to_set() == texts(v@).to_set(),
{
    let mut out: Vec<String> = Vec::new();
    let ghost all = texts(v@);
    let mut i: usize = 0;
    proof {
        assert(texts(out@).to_set() =~= all.take(0).to_set());
    }
    while i < v.len()
        invariant
            all == texts(v@),
            i <= v@.len(),
            strs_sorted(texts(out@)),
            texts(out@).to_set() == all.take(i as int).to_set(),
        decreases v@.len() - i,
    {
        let s = v[i].clone();
        insert_text(&mut out, s);
        proof {
            assert(all.take(i + 1) =~= all.take(i as int).push(all[i as int]));
            lemma_push_to_set(all.take(i as int), all[i as int]);
        }
        i += 1;
    }
    proof {
        assert(all.take(v@.len() as int) =~= all);
    }
    out
}

/// Adds a conflict to a strictly sorted list unless an equal one is there.
fn insert_conflict(out: &mut Vec<ProtocolBundleConflict>, c: ProtocolBundleConflict)
    requires
        conflicts_sorted(old(out)@),
    ensures
        conflicts_sorted(final(out)@),
        final(out)@.map_values(|x: ProtocolBundleConflict| conflict_key(x)).to_set() == old(out)@.map_values(
            |x: ProtocolBundleConflict| conflict_key(x),
        ).to_set().insert(conflict_key(c)),
        forall|x: ProtocolBundleConflict| #[trigger] final(out)@.contains(x) ==> old(out)@.contains(x) || x == c,
{
    let ghost before = out@;
    let ghost keys = before.map_values(|x: ProtocolBundleConflict| conflict_key(x));
    let ghost ck = conflict_key(c);
    let mut p: usize = 0;
    while p < out.len()
        invariant
            out@ == before,
            keys == before.map_values(|x: ProtocolBundleConflict| conflict_key(x)),
            ck == conflict_key(c),
            conflicts_sorted(before),
            p <= out@.len(),
            forall|k: int| 0 <= k < p ==> conflict_lt(conflict_key(#[trigger] before[k]), ck),
        ensures
            p <= out@.len(),
            forall|k: int| 0 <= k < p ==> conflict_lt(conflict_key(#[trigger] before[k]), ck),
            p < out@.len() ==> conflict_lt(ck, conflict_key(before[p as int])),
        decreases out@.len() - p,
    {
        let r = compare_conflicts(&out[p], &c);
        if r == 0 {
            proof {
                assert(keys[p as int] == ck);
                assert(keys.to_set().insert(ck) =~= keys.to_set());
            }
            return;
        }
        if r == 1 {
            break;
        }
        p += 1;
    }
    out.insert(p, c);
    proof {
        let after = out@;
        let akeys = after.map_values(|x: ProtocolBundleConflict| conflict_key(x));
        assert(after =~= before.insert(p as int, c));
        assert forall|i: int, j: int| 0 <= i < j < after.len() implies conflict_lt(
            conflict_key(#[trigger] after[i]),
            conflict_key(#[trigger] after[j]),
        ) by {
            if i < p && j < p {
                assert(after[i] == before[i] && after[j] == before[j]);
            } else if i < p && j == p {
                assert(after[i] == before[i] && after[j] == c);
            } else if i < p && j > p {
                assert(after[i] == before[i] && after[j] == before[j - 1]);
            } else if i == p {
                assert(after[i] == c && after[j] == before[j - 1]);
                if j - 1 > p {
                    assert(conflict_lt(conflict_key(before[p as int]), conflict_key(before[j - 1])));
                    lemma_conflict_lt_order(ck, conflict_key(before[p as int]), conflict_key(before[j - 1]));
                }
            } else {
                assert(after[i] == before[i - 1] && after[j] == before[j - 1]);
            }
        }
        assert forall|x| akeys.to_set().contains(x) <==> keys.to_set().insert(ck).contains(x) by {
            if akeys.to_set().contains(x) {
                let k = choose|k: int| 0 <= k < akeys.len() && akeys[k] == x;
                if k < p {
                    assert(keys[k] == x);
                } else if k > p {
                    assert(keys[k - 1] == x);
                }
            }
            if keys.to_set().contains(x) {
                let k = choose|k: int| 0 <= k < keys.len() && keys[k] == x;
                if k < p {
                    assert(akeys[k] == x);
                } else {
                    assert(akeys[k + 1] == x);
                }
            }
            if x == ck {
                assert(akeys[p as int] == x);
            }
        }
        assert(akeys.to_set() =~= keys.to_set().insert(ck));
        assert forall|x: ProtocolBundleConflict| #[trigger] after.contains(x) implies before.contains(x) || x == c by {
            let k = choose|k: int| 0 <= k < after.len() && after[k] == x;
            if k < p {
                assert(before[k] == x);
            } else if k > p {
                assert(before[k - 1] == x);
            }
        }
    }
}

/// The conflicts, sorted and without repeats.
pub fn sorted_conflicts(v: Vec<ProtocolBundleConflict>) -> (r: Vec<ProtocolBundleConflict>)
    ensures
        conflicts_sorted(r@),
        r@.map_values(|x: ProtocolBundleConflict| conflict_key(x)).to_set() == v@.map_values(
            |x: ProtocolBundleConflict| conflict_key(x),
        ).to_set(),
        forall|x: ProtocolBundleConflict| #[trigger] r@.contains(x) ==> v@.contains(x),
{
    let mut out: Vec<ProtocolBundleConflict> = Vec::new();
    let mut rest = v;
    let ghost all = rest@;
    let ghost keys = all.map_values(|x: ProtocolBundleConflict| conflict_key(x));
    let mut i: usize = 0;
    let n = rest.len();
    proof {
        assert(out@.map_values(|x: ProtocolBundleConflict| conflict_key(x)).to_set() =~= keys.take(0).to_set());
    }
    while i < n
        invariant
            n == all.len(),
            keys == all.map_values(|x: ProtocolBundleConflict| conflict_key(x)),
            i <= n,
            rest@ == all.skip(i as int),
            conflicts_sorted(out@),
            out@.map_values(|x: ProtocolBundleConflict| conflict_key(x)).to_set() == keys.take(i as int).to_set(),
            forall|x: ProtocolBundleConflict| #[trigger] out@.contains(x) ==> all.contains(x),
        decreases n - i,
    {
        let c = rest.remove(0);
        proof {
            assert(c == all[i as int]);
            assert(rest@ =~= all.skip(i + 1));
        }
        insert_conflict(&mut out, c);
        proof {
            assert(keys.take(i + 1) =~= keys.take(i as int).push(keys[i as int]));
            lemma_push_to_set(keys.take(i as int), keys[i as int]);
        }
        i += 1;
    }
    proof {
        assert(keys.take(n as int) =~= keys);
    }
    out
}

} // verus!
