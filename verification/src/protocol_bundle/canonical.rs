//! The canonical order of a bundle's claim lists: each list sorted by its claim key, claims
//! with equal keys kept in their given order.

use super::order::{chars_lt, compare_text, lemma_chars_lt_order};
use super::{
    ProtocolCellDepClaim, ProtocolCellLocation, ProtocolClosedRoleParticipant, ProtocolHeaderDepClaim, ProtocolPolicyClaim,
    ProtocolPolicyKind, ProtocolRoleBinding, ProtocolWitnessClaim, ProtocolWitnessField, ResolvedProtocolBundle,
    ResolvedProtocolClosedRoleBinding,
};
use vstd::prelude::*;

verus! {

/// One part of a sort key: a number, then a text.
pub type KeyPart = (int, Seq<char>);

/// One key part comes before another: by number, then by text.
pub open spec fn part_lt(a: KeyPart, b: KeyPart) -> bool {
    a.0 < b.0 || (a.0 == b.0 && chars_lt(a.1, b.1))
}

/// Keys compared part by part; a key that is a proper prefix of another comes first.
pub open spec fn key_lt(a: Seq<KeyPart>, b: Seq<KeyPart>) -> bool
    decreases a.len(),
{
    if a.len() == 0 {
        b.len() > 0
    } else if b.len() == 0 {
        false
    } else if a[0] != b[0] {
        part_lt(a[0], b[0])
    } else {
        key_lt(a.drop_first(), b.drop_first())
    }
}

/// One key comes before another or equals it.
pub open spec fn key_le(a: Seq<KeyPart>, b: Seq<KeyPart>) -> bool {
    key_lt(a, b) || a == b
}

proof fn lemma_part_lt_order(a: KeyPart, b: KeyPart, c: KeyPart)
    ensures
        !part_lt(a, a),
        part_lt(a, b) ==> !part_lt(b, a),
        part_lt(a, b) || a == b || part_lt(b, a),
        part_lt(a, b) && part_lt(b, c) ==> part_lt(a, c),
{
    lemma_chars_lt_order(a.1, b.1, c.1);
    lemma_chars_lt_order(b.1, a.1, c.1);
    lemma_chars_lt_order(a.1, c.1, b.1);
}

/// `key_lt` is a strict total order.
pub proof fn lemma_key_lt_order(a: Seq<KeyPart>, b: Seq<KeyPart>, c: Seq<KeyPart>)
    ensures
        !key_lt(a, a),
        key_lt(a, b) ==> !key_lt(b, a),
        key_lt(a, b) || a == b || key_lt(b, a),
        key_lt(a, b) && key_lt(b, c) ==> key_lt(a, c),
    decreases a.len(),
{
    if a.len() > 0 {
        lemma_part_lt_order(a[0], b[0], c[0]);
        lemma_part_lt_order(b[0], a[0], c[0]);
        lemma_part_lt_order(a[0], c[0], b[0]);
        lemma_key_lt_order(a.drop_first(), b.drop_first(), c.drop_first());
        if b.len() > 0 && a.drop_first() == b.drop_first() && a[0] == b[0] {
            assert(a =~= b) by {
                assert forall|i: int| 0 <= i < a.len() implies a[i] == b[i] by {
                    if i > 0 {
                        assert(a[i] == a.drop_first()[i - 1]);
                        assert(b[i] == b.drop_first()[i - 1]);
                    }
                }
            }
        }
    } else if b.len() == 0 {
        assert(a =~= b);
    }
}

/// A number as a key part.
pub open spec fn num_part(n: int) -> KeyPart {
    (n, Seq::empty())
}

/// A text as a key part.
pub open spec fn text_part(t: Seq<char>) -> KeyPart {
    (0, t)
}

/// A key that starts with `p` and goes on with `rest`.
pub open spec fn cons(p: KeyPart, rest: Seq<KeyPart>) -> Seq<KeyPart> {
    seq![p] + rest
}

/// Keys that start with one part compare by that part first, then by the rest.
pub proof fn lemma_cons(p: KeyPart, a: Seq<KeyPart>, q: KeyPart, b: Seq<KeyPart>)
    ensures
        key_lt(cons(p, a), cons(q, b)) == (if p != q { part_lt(p, q) } else { key_lt(a, b) }),
        (cons(p, a) == cons(q, b)) == (p == q && a == b),
{
    assert(cons(p, a).drop_first() =~= a);
    assert(cons(q, b).drop_first() =~= b);
    assert(cons(p, a)[0] == p);
    assert(cons(q, b)[0] == q);
    if p == q && a == b {
        assert(cons(p, a) =~= cons(q, b));
    }
}

/// -1, 0 or 1 as the number part of `a` comes before, equals or comes after that of `b`.
fn compare_num(a: u64, b: u64) -> (r: i8)
    ensures
        r == -1 <==> part_lt(num_part(a as int), num_part(b as int)),
        r == 0 <==> num_part(a as int) == num_part(b as int),
        r == 1 <==> part_lt(num_part(b as int), num_part(a as int)),
        r == -1 || r == 0 || r == 1,
{
    if a < b {
        -1
    } else if a == b {
        0
    } else {
        1
    }
}

/// -1, 0 or 1 as the text part of `a` comes before, equals or comes after that of `b`.
fn compare_part_text(a: &str, b: &str) -> (r: i8)
    ensures
        r == -1 <==> part_lt(text_part(a@), text_part(b@)),
        r == 0 <==> text_part(a@) == text_part(b@),
        r == 1 <==> part_lt(text_part(b@), text_part(a@)),
        r == -1 || r == 0 || r == 1,
{
    compare_text(a, b)
}

/// The rank of a cell location in the canonical order (inputs first).
pub open spec fn location_rank(l: ProtocolCellLocation) -> int {
    match l {
        ProtocolCellLocation::Input => 0,
        ProtocolCellLocation::Output => 1,
    }
}

fn location_rank_exec(l: ProtocolCellLocation) -> (r: u64)
    ensures
        r == location_rank(l),
{
    match l {
        ProtocolCellLocation::Input => 0,
        ProtocolCellLocation::Output => 1,
    }
}

/// The rank of a witness field in the canonical order: lock, input type, output type.
pub open spec fn field_rank(f: ProtocolWitnessField) -> int {
    match f {
        ProtocolWitnessField::Lock => 0,
        ProtocolWitnessField::InputType => 1,
        ProtocolWitnessField::OutputType => 2,
    }
}

fn field_rank_exec(f: ProtocolWitnessField) -> (r: u64)
    ensures
        r == field_rank(f),
{
    match f {
        ProtocolWitnessField::Lock => 0,
        ProtocolWitnessField::InputType => 1,
        ProtocolWitnessField::OutputType => 2,
    }
}

/// The rank of a policy kind in the canonical order (fee first).
pub open spec fn policy_rank(k: ProtocolPolicyKind) -> int {
    match k {
        ProtocolPolicyKind::Fee => 0,
        ProtocolPolicyKind::Change => 1,
    }
}

fn policy_rank_exec(k: ProtocolPolicyKind) -> (r: u64)
    ensures
        r == policy_rank(k),
{
    match k {
        ProtocolPolicyKind::Fee => 0,
        ProtocolPolicyKind::Change => 1,
    }
}

/// Whether a key of parts `a0, a1, ...` (ending in `rest`) comes before or equals one of parts
/// `b0, b1, ...`, given the three-way comparison `c0` of the first parts.
proof fn lemma_first_part_decides(c0: i8, p: KeyPart, a: Seq<KeyPart>, q: KeyPart, b: Seq<KeyPart>)
    requires
        c0 == -1 <==> part_lt(p, q),
        c0 == 0 <==> p == q,
        c0 == 1 <==> part_lt(q, p),
        c0 == -1 || c0 == 0 || c0 == 1,
    ensures
        c0 != 0 ==> (key_le(cons(p, a), cons(q, b)) <==> c0 < 0),
        c0 == 0 ==> (key_le(cons(p, a), cons(q, b)) <==> key_le(a, b)),
{
    lemma_cons(p, a, q, b);
}

/// A claim with a canonical sort key.
pub trait CanonicalKey: Sized {
    /// The key the claim is sorted by.
    spec fn sort_key(&self) -> Seq<KeyPart>;

    /// Whether this claim's key comes before the other's or equals it.
    fn key_le_exec(&self, other: &Self) -> (r: bool)
        ensures
            r == key_le(self.sort_key(), other.sort_key()),
    ;
}

/// The elements of `s` whose key is `k`, in order.
pub open spec fn with_key<T: CanonicalKey>(s: Seq<T>, k: Seq<KeyPart>) -> Seq<T> {
    s.filter(has_key::<T>(k))
}

/// The test "the element's key is `k`".
pub open spec fn has_key<T: CanonicalKey>(k: Seq<KeyPart>) -> spec_fn(T) -> bool {
    |y: T| y.sort_key() == k
}

/// The keys of `s` never decrease.
pub open spec fn key_sorted<T: CanonicalKey>(s: Seq<T>) -> bool {
    forall|i: int, j: int| 0 <= i < j < s.len() ==> key_le((#[trigger] s[i]).sort_key(), (#[trigger] s[j]).sort_key())
}

/// `r` holds the elements of `v` sorted by key, elements with equal keys in their order in `v`.
pub open spec fn stably_sorted<T: CanonicalKey>(r: Seq<T>, v: Seq<T>) -> bool {
    &&& key_sorted(r)
    &&& forall|k: Seq<KeyPart>| #[trigger] with_key(r, k) == with_key(v, k)
}

proof fn lemma_with_key_push<T: CanonicalKey>(s: Seq<T>, e: T, k: Seq<KeyPart>)
    ensures
        with_key(s.push(e), k) == if e.sort_key() == k {
            with_key(s, k).push(e)
        } else {
            with_key(s, k)
        },
{
    s.lemma_filter_push(e, has_key::<T>(k));
}

proof fn lemma_with_key_insert<T: CanonicalKey>(s: Seq<T>, p: int, e: T, k: Seq<KeyPart>)
    requires
        0 <= p <= s.len(),
        forall|j: int| p <= j < s.len() ==> key_lt(e.sort_key(), (#[trigger] s[j]).sort_key()),
    ensures
        with_key(s.insert(p, e), k) == if e.sort_key() == k {
            with_key(s, k).push(e)
        } else {
            with_key(s, k)
        },
{
    let pred = has_key::<T>(k);
    let a = s.take(p);
    let b = s.skip(p);
    assert(s.insert(p, e) =~= a + seq![e] + b);
    assert(s =~= a + b);
    Seq::filter_distributes_over_add(a + seq![e], b, pred);
    Seq::filter_distributes_over_add(a, seq![e], pred);
    Seq::filter_distributes_over_add(a, b, pred);
    assert(seq![e] =~= Seq::<T>::empty().push(e));
    Seq::<T>::empty().lemma_filter_push(e, pred);
    assert(Seq::<T>::empty().filter(pred) =~= Seq::<T>::empty()) by {
        reveal(Seq::filter);
    }
    if e.sort_key() == k {
        assert forall|j: int| 0 <= j < b.len() implies !pred(#[trigger] b[j]) by {
            assert(b[j] == s[p + j]);
            lemma_key_lt_order(e.sort_key(), s[p + j].sort_key(), e.sort_key());
        }
        assert(b.all(|x: T| !pred(x)));
        b.lemma_all_neg_filter_empty(pred);
        assert(b.filter(pred) =~= Seq::<T>::empty());
        assert(with_key(s.insert(p, e), k) =~= with_key(s, k).push(e));
    } else {
        assert(with_key(s.insert(p, e), k) =~= with_key(s, k));
    }
}

/// The last comparison of a key: `c` is -1, 0 or 1 as the last parts compare.
proof fn lemma_last_part_decides(c: i8, p: KeyPart, q: KeyPart)
    requires
        c == -1 <==> part_lt(p, q),
        c == 0 <==> p == q,
        c == 1 <==> part_lt(q, p),
        c == -1 || c == 0 || c == 1,
    ensures
        key_le(cons(p, Seq::empty()), cons(q, Seq::empty())) <==> c <= 0,
{
    lemma_cons(p, Seq::empty(), q, Seq::empty());
    assert(!key_lt(Seq::<KeyPart>::empty(), Seq::<KeyPart>::empty()));
}

impl CanonicalKey for ProtocolRoleBinding {
    /// Location, index, artifact, name.
    open spec fn sort_key(&self) -> Seq<KeyPart> {
        cons(
            num_part(location_rank(self.location)),
            cons(num_part(self.index as int), cons(text_part(self.artifact@), cons(text_part(self.name@), Seq::empty()))),
        )
    }

    fn key_le_exec(&self, other: &Self) -> (r: bool) {
        let c = compare_num(location_rank_exec(self.location), location_rank_exec(other.location));
        proof {
            lemma_first_part_decides(
                c,
                num_part(location_rank(self.location)),
                cons(num_part(self.index as int), cons(text_part(self.artifact@), cons(text_part(self.name@), Seq::empty()))),
                num_part(location_rank(other.location)),
                cons(num_part(other.index as int), cons(text_part(other.artifact@), cons(text_part(other.name@), Seq::empty()))),
            );
        }
        if c != 0 {
            return c < 0;
        }
        let c = compare_num(self.index as u64, other.index as u64);
        proof {
            lemma_first_part_decides(
                c,
                num_part(self.index as int),
                cons(text_part(self.artifact@), cons(text_part(self.name@), Seq::empty())),
                num_part(other.index as int),
                cons(text_part(other.artifact@), cons(text_part(other.name@), Seq::empty())),
            );
        }
        if c != 0 {
            return c < 0;
        }
        let c = compare_part_text(self.artifact.as_str(), other.artifact.as_str());
        proof {
            lemma_first_part_decides(
                c,
                text_part(self.artifact@),
                cons(text_part(self.name@), Seq::empty()),
                text_part(other.artifact@),
                cons(text_part(other.name@), Seq::empty()),
            );
        }
        if c != 0 {
            return c < 0;
        }
        let c = compare_part_text(self.name.as_str(), other.name.as_str());
        proof {
            lemma_last_part_decides(c, text_part(self.name@), text_part(other.name@));
        }
        c <= 0
    }
}

impl CanonicalKey for ProtocolCellDepClaim {
    /// Index, artifact, name.
    open spec fn sort_key(&self) -> Seq<KeyPart> {
        cons(num_part(self.index as int), cons(text_part(self.artifact@), cons(text_part(self.name@), Seq::empty())))
    }

    fn key_le_exec(&self, other: &Self) -> (r: bool) {
        let c = compare_num(self.index as u64, other.index as u64);
        proof {
            lemma_first_part_decides(
                c,
                num_part(self.index as int),
                cons(text_part(self.artifact@), cons(text_part(self.name@), Seq::empty())),
                num_part(other.index as int),
                cons(text_part(other.artifact@), cons(text_part(other.name@), Seq::empty())),
            );
        }
        if c != 0 {
            return c < 0;
        }
        let c = compare_part_text(self.artifact.as_str(), other.artifact.as_str());
        proof {
            lemma_first_part_decides(
                c,
                text_part(self.artifact@),
                cons(text_part(self.name@), Seq::empty()),
                text_part(other.artifact@),
                cons(text_part(other.name@), Seq::empty()),
            );
        }
        if c != 0 {
            return c < 0;
        }
        let c = compare_part_text(self.name.as_str(), other.name.as_str());
        proof {
            lemma_last_part_decides(c, text_part(self.name@), text_part(other.name@));
        }
        c <= 0
    }
}

impl CanonicalKey for ProtocolHeaderDepClaim {
    /// Index, artifact, name.
    open spec fn sort_key(&self) -> Seq<KeyPart> {
        cons(num_part(self.index as int), cons(text_part(self.artifact@), cons(text_part(self.name@), Seq::empty())))
    }

    fn key_le_exec(&self, other: &Self) -> (r: bool) {
        let c = compare_num(self.index as u64, other.index as u64);
        proof {
            lemma_first_part_decides(
                c,
                num_part(self.index as int),
                cons(text_part(self.artifact@), cons(text_part(self.name@), Seq::empty())),
                num_part(other.index as int),
                cons(text_part(other.artifact@), cons(text_part(other.name@), Seq::empty())),
            );
        }
        if c != 0 {
            return c < 0;
        }
        let c = compare_part_text(self.artifact.as_str(), other.artifact.as_str());
        proof {
            lemma_first_part_decides(
                c,
                text_part(self.artifact@),
                cons(text_part(self.name@), Seq::empty()),
                text_part(other.artifact@),
                cons(text_part(other.name@), Seq::empty()),
            );
        }
        if c != 0 {
            return c < 0;
        }
        let c = compare_part_text(self.name.as_str(), other.name.as_str());
        proof {
            lemma_last_part_decides(c, text_part(self.name@), text_part(other.name@));
        }
        c <= 0
    }
}

impl CanonicalKey for ProtocolPolicyClaim {
    /// Kind, artifact, policy hash.
    open spec fn sort_key(&self) -> Seq<KeyPart> {
        cons(num_part(policy_rank(self.kind)), cons(text_part(self.artifact@), cons(text_part(self.policy_hash@), Seq::empty())))
    }

    fn key_le_exec(&self, other: &Self) -> (r: bool) {
        let c = compare_num(policy_rank_exec(self.kind), policy_rank_exec(other.kind));
        proof {
            lemma_first_part_decides(
                c,
                num_part(policy_rank(self.kind)),
                cons(text_part(self.artifact@), cons(text_part(self.policy_hash@), Seq::empty())),
                num_part(policy_rank(other.kind)),
                cons(text_part(other.artifact@), cons(text_part(other.policy_hash@), Seq::empty())),
            );
        }
        if c != 0 {
            return c < 0;
        }
        let c = compare_part_text(self.artifact.as_str(), other.artifact.as_str());
        proof {
            lemma_first_part_decides(
                c,
                text_part(self.artifact@),
                cons(text_part(self.policy_hash@), Seq::empty()),
                text_part(other.artifact@),
                cons(text_part(other.policy_hash@), Seq::empty()),
            );
        }
        if c != 0 {
            return c < 0;
        }
        let c = compare_part_text(self.policy_hash.as_str(), other.policy_hash.as_str());
        proof {
            lemma_last_part_decides(c, text_part(self.policy_hash@), text_part(other.policy_hash@));
        }
        c <= 0
    }
}

impl CanonicalKey for ProtocolWitnessClaim {
    /// Index, field, artifact, name.
    open spec fn sort_key(&self) -> Seq<KeyPart> {
        cons(
            num_part(self.index as int),
            cons(num_part(field_rank(self.field)), cons(text_part(self.artifact@), cons(text_part(self.name@), Seq::empty()))),
        )
    }

    fn key_le_exec(&self, other: &Self) -> (r: bool) {
        let c = compare_num(self.index as u64, other.index as u64);
        proof {
            lemma_first_part_decides(
                c,
                num_part(self.index as int),
                cons(num_part(field_rank(self.field)), cons(text_part(self.artifact@), cons(text_part(self.name@), Seq::empty()))),
                num_part(other.index as int),
                cons(num_part(field_rank(other.field)), cons(text_part(other.artifact@), cons(text_part(other.name@), Seq::empty()))),
            );
        }
        if c != 0 {
            return c < 0;
        }
        let c = compare_num(field_rank_exec(self.field), field_rank_exec(other.field));
        proof {
            lemma_first_part_decides(
                c,
                num_part(field_rank(self.field)),
                cons(text_part(self.artifact@), cons(text_part(self.name@), Seq::empty())),
                num_part(field_rank(other.field)),
                cons(text_part(other.artifact@), cons(text_part(other.name@), Seq::empty())),
            );
        }
        if c != 0 {
            return c < 0;
        }
        let c = compare_part_text(self.artifact.as_str(), other.artifact.as_str());
        proof {
            lemma_first_part_decides(
                c,
                text_part(self.artifact@),
                cons(text_part(self.name@), Seq::empty()),
                text_part(other.artifact@),
                cons(text_part(other.name@), Seq::empty()),
            );
        }
        if c != 0 {
            return c < 0;
        }
        let c = compare_part_text(self.name.as_str(), other.name.as_str());
        proof {
            lemma_last_part_decides(c, text_part(self.name@), text_part(other.name@));
        }
        c <= 0
    }
}

impl CanonicalKey for ProtocolClosedRoleParticipant {
    /// Artifact, claim.
    open spec fn sort_key(&self) -> Seq<KeyPart> {
        cons(text_part(self.artifact@), cons(text_part(self.claim@), Seq::empty()))
    }

    fn key_le_exec(&self, other: &Self) -> (r: bool) {
        let c = compare_part_text(self.artifact.as_str(), other.artifact.as_str());
        proof {
            lemma_first_part_decides(
                c,
                text_part(self.artifact@),
                cons(text_part(self.claim@), Seq::empty()),
                text_part(other.artifact@),
                cons(text_part(other.claim@), Seq::empty()),
            );
        }
        if c != 0 {
            return c < 0;
        }
        let c = compare_part_text(self.claim.as_str(), other.claim.as_str());
        proof {
            lemma_last_part_decides(c, text_part(self.claim@), text_part(other.claim@));
        }
        c <= 0
    }
}

impl CanonicalKey for ResolvedProtocolClosedRoleBinding {
    /// Role id.
    open spec fn sort_key(&self) -> Seq<KeyPart> {
        cons(text_part(self.role_id@), Seq::empty())
    }

    fn key_le_exec(&self, other: &Self) -> (r: bool) {
        let c = compare_part_text(self.role_id.as_str(), other.role_id.as_str());
        proof {
            lemma_last_part_decides(c, text_part(self.role_id@), text_part(other.role_id@));
        }
        c <= 0
    }
}

/// An element of a list is in the list's elements of its own key, and every element of the
/// elements of a key is in the list and has that key.
proof fn lemma_with_key_membership<T: CanonicalKey>(r: Seq<T>, k: Seq<KeyPart>)
    ensures
        forall|x: T| r.contains(x) && x.sort_key() == k ==> #[trigger] with_key(r, k).contains(x),
        forall|x: T| #[trigger] with_key(r, k).contains(x) ==> r.contains(x) && x.sort_key() == k,
{
    assert forall|x: T| r.contains(x) && x.sort_key() == k implies #[trigger] with_key(r, k).contains(x) by {
        let i = choose|i: int| 0 <= i < r.len() && r[i] == x;
        r.lemma_filter_contains(has_key::<T>(k), i);
    }
    assert forall|x: T| #[trigger] with_key(r, k).contains(x) implies r.contains(x) && x.sort_key() == k by {
        r.lemma_filter_contains_rev(has_key::<T>(k), x);
        let i = choose|i: int| 0 <= i < with_key(r, k).len() && with_key(r, k)[i] == x;
        r.lemma_filter_pred(has_key::<T>(k), i);
    }
}

/// Two lists sorted by key that hold, key by key, the same elements in the same order are the
/// same list.
proof fn lemma_key_sorted_unique<T: CanonicalKey>(r1: Seq<T>, r2: Seq<T>)
    requires
        key_sorted(r1),
        key_sorted(r2),
        forall|k: Seq<KeyPart>| #[trigger] with_key(r1, k) == with_key(r2, k),
    ensures
        r1 == r2,
    decreases r1.len() + r2.len(),
{
    if r1.len() == 0 || r2.len() == 0 {
        if r2.len() > 0 {
            let x = r2.last();
            lemma_with_key_membership(r2, x.sort_key());
            lemma_with_key_membership(r1, x.sort_key());
            assert(r2.contains(x));
            assert(with_key(r2, x.sort_key()).contains(x));
            assert(with_key(r1, x.sort_key()) == with_key(r2, x.sort_key()));
            assert(with_key(r1, x.sort_key()).contains(x));
        }
        if r1.len() > 0 {
            let x = r1.last();
            lemma_with_key_membership(r1, x.sort_key());
            lemma_with_key_membership(r2, x.sort_key());
            assert(r1.contains(x));
            assert(with_key(r1, x.sort_key()).contains(x));
            assert(with_key(r1, x.sort_key()) == with_key(r2, x.sort_key()));
            assert(with_key(r2, x.sort_key()).contains(x));
        }
        assert(r1 =~= r2);
    } else {
        let e1 = r1.last();
        let e2 = r2.last();
        let k1 = e1.sort_key();
        let k2 = e2.sort_key();
        lemma_with_key_membership(r1, k1);
        lemma_with_key_membership(r2, k1);
        lemma_with_key_membership(r1, k2);
        lemma_with_key_membership(r2, k2);
        assert(r1.contains(e1));
        assert(r2.contains(e2));
        assert(with_key(r1, k1).contains(e1));
        assert(with_key(r2, k2).contains(e2));
        assert(with_key(r1, k1) == with_key(r2, k1));
        assert(with_key(r1, k2) == with_key(r2, k2));
        assert(with_key(r2, k1).contains(e1));
        assert(with_key(r1, k2).contains(e2));
        let j2 = choose|j: int| 0 <= j < r2.len() && r2[j] == e1;
        let j1 = choose|j: int| 0 <= j < r1.len() && r1[j] == e2;
        if j2 < r2.len() - 1 {
            assert(key_le(r2[j2].sort_key(), r2[r2.len() - 1].sort_key()));
        }
        if j1 < r1.len() - 1 {
            assert(key_le(r1[j1].sort_key(), r1[r1.len() - 1].sort_key()));
        }
        lemma_key_lt_order(k1, k2, k1);
        assert(k1 == k2);
        let s1 = r1.drop_last();
        let s2 = r2.drop_last();
        assert(r1 =~= s1.push(e1));
        assert(r2 =~= s2.push(e2));
        assert forall|k: Seq<KeyPart>| #[trigger] with_key(s1, k) == with_key(s2, k) by {
            lemma_with_key_push(s1, e1, k);
            lemma_with_key_push(s2, e2, k);
            assert(with_key(r1, k) == with_key(r2, k));
            if k == k1 {
                assert(with_key(s1, k) =~= with_key(r1, k).drop_last());
                assert(with_key(s2, k) =~= with_key(r2, k).drop_last());
            }
        }
        lemma_with_key_push(s1, e1, k1);
        lemma_with_key_push(s2, e2, k1);
        assert(with_key(r1, k1) == with_key(r2, k1));
        assert(with_key(r1, k1).last() == e1);
        assert(with_key(r2, k1).last() == e2);
        assert(key_sorted(s1)) by {
            assert forall|i: int, j: int| 0 <= i < j < s1.len() implies key_le((#[trigger] s1[i]).sort_key(), (#[trigger] s1[j]).sort_key()) by {
                assert(s1[i] == r1[i] && s1[j] == r1[j]);
            }
        }
        assert(key_sorted(s2)) by {
            assert forall|i: int, j: int| 0 <= i < j < s2.len() implies key_le((#[trigger] s2[i]).sort_key(), (#[trigger] s2[j]).sort_key()) by {
                assert(s2[i] == r2[i] && s2[j] == r2[j]);
            }
        }
        lemma_key_sorted_unique(s1, s2);
    }
}

/// The canonical order of a list depends only on the order of the claims within each key:
/// lists that hold, key by key, the same claims in the same order (in particular lists that
/// hold the same claims, no key twice, in any order) have the same canonical order.
pub proof fn lemma_canonical_order_determined<T: CanonicalKey>(r1: Seq<T>, a: Seq<T>, r2: Seq<T>, b: Seq<T>)
    requires
        stably_sorted(r1, a),
        stably_sorted(r2, b),
        forall|k: Seq<KeyPart>| #[trigger] with_key(a, k) == with_key(b, k),
    ensures
        r1 == r2,
{
    assert forall|k: Seq<KeyPart>| #[trigger] with_key(r1, k) == with_key(r2, k) by {
        assert(with_key(r1, k) == with_key(a, k));
        assert(with_key(r2, k) == with_key(b, k));
        assert(with_key(a, k) == with_key(b, k));
    }
    lemma_key_sorted_unique(r1, r2);
}

/// Sorts by key, keeping elements with equal keys in their given order.
pub fn stable_sort<T: CanonicalKey>(v: Vec<T>) -> (r: Vec<T>)
    ensures
        stably_sorted(r@, v@),
        key_sorted(v@) ==> r@ == v@,
{
    let ghost orig = v@;
    let mut rest = v;
    let mut out: Vec<T> = Vec::new();
    let ghost mut taken: int = 0;
    proof {
        assert(orig.take(0) =~= Seq::<T>::empty());
        assert(orig.skip(0) =~= orig);
        assert forall|k: Seq<KeyPart>| #[trigger] with_key(out@, k) == with_key(orig.take(0), k) by {}
    }
    while rest.len() > 0
        invariant
            0 <= taken <= orig.len(),
            rest@ == orig.skip(taken),
            key_sorted(out@),
            forall|k: Seq<KeyPart>| #[trigger] with_key(out@, k) == with_key(orig.take(taken), k),
            key_sorted(orig) ==> out@ == orig.take(taken),
        decreases rest@.len(),
    {
        let e = rest.remove(0);
        proof {
            assert(e == orig[taken]);
        }
        let mut p: usize = 0;
        while p < out.len() && out[p].key_le_exec(&e)
            invariant
                p <= out@.len(),
                forall|j: int| 0 <= j < p ==> key_le((#[trigger] out@[j]).sort_key(), e.sort_key()),
                0 <= taken < orig.len(),
                e == orig[taken],
                key_sorted(orig) ==> out@ == orig.take(taken),
            decreases out@.len() - p,
        {
            p += 1;
        }
        let ghost before = out@;
        proof {
            if key_sorted(orig) && p < before.len() {
                assert(before[p as int] == orig[p as int]);
                assert(key_le(orig[p as int].sort_key(), orig[taken].sort_key()));
            }
            assert forall|j: int| p <= j < before.len() implies key_lt(e.sort_key(), (#[trigger] before[j]).sort_key()) by {
                assert(!key_le(before[p as int].sort_key(), e.sort_key()));
                if j > p {
                    assert(key_le(before[p as int].sort_key(), before[j].sort_key()));
                    lemma_key_lt_order(before[p as int].sort_key(), before[j].sort_key(), e.sort_key());
                }
                lemma_key_lt_order(before[j].sort_key(), e.sort_key(), before[j].sort_key());
            }
        }
        out.insert(p, e);
        proof {
            let after = out@;
            assert(after =~= before.insert(p as int, e));
            assert forall|i: int, j: int| 0 <= i < j < after.len() implies key_le((#[trigger] after[i]).sort_key(), (#[trigger] after[j]).sort_key()) by {
                if j < p {
                    assert(after[i] == before[i] && after[j] == before[j]);
                } else if j == p {
                    assert(after[i] == before[i] && after[j] == e);
                } else if i < p {
                    assert(after[i] == before[i] && after[j] == before[j - 1]);
                    lemma_key_lt_order(before[i].sort_key(), e.sort_key(), before[j - 1].sort_key());
                } else if i == p {
                    assert(after[i] == e && after[j] == before[j - 1]);
                } else {
                    assert(after[i] == before[i - 1] && after[j] == before[j - 1]);
                }
            }
            assert(orig.take(taken + 1) =~= orig.take(taken).push(e));
            if key_sorted(orig) {
                assert(after =~= orig.take(taken + 1));
            }
            assert forall|k: Seq<KeyPart>| #[trigger] with_key(after, k) == with_key(orig.take(taken + 1), k) by {
                lemma_with_key_insert(before, p as int, e, k);
                lemma_with_key_push(orig.take(taken), e, k);
            }
            assert(rest@ =~= orig.skip(taken + 1));
            taken = taken + 1;
        }
    }
    proof {
        assert(orig.take(taken) =~= orig);
    }
    out
}

/// `r` is `v` in canonical order: sorted stably by key, and `v` itself where it was sorted.
pub open spec fn canonical_of<T: CanonicalKey>(r: Seq<T>, v: Seq<T>) -> bool {
    &&& stably_sorted(r, v)
    &&& key_sorted(v) ==> r == v
}

/// Every element of a stably sorted list comes from the list it was sorted from.
pub proof fn lemma_stably_sorted_members<T: CanonicalKey>(r: Seq<T>, v: Seq<T>)
    requires
        stably_sorted(r, v),
    ensures
        forall|x: T| r.contains(x) ==> v.contains(x),
{
    assert forall|x: T| r.contains(x) implies v.contains(x) by {
        let k = x.sort_key();
        let i = choose|i: int| 0 <= i < r.len() && r[i] == x;
        r.lemma_filter_contains(has_key::<T>(k), i);
        assert(with_key(r, k) == with_key(v, k));
        v.lemma_filter_contains_rev(has_key::<T>(k), x);
    }
}

/// A closed role binding whose consumers were put in canonical order, all else kept.
pub open spec fn consumers_canonicalized(a: ResolvedProtocolClosedRoleBinding, b: ResolvedProtocolClosedRoleBinding) -> bool {
    &&& a.schema == b.schema
    &&& a.role_id == b.role_id
    &&& a.locality == b.locality
    &&& a.kind == b.kind
    &&& a.schema_identity == b.schema_identity
    &&& a.source == b.source
    &&& a.provider == b.provider
    &&& a.correspondence == b.correspondence
    &&& canonical_of(a.consumers@, b.consumers@)
}

/// Lists of closed role bindings that agree element by element, each with its consumers put
/// in canonical order.
pub open spec fn closed_roles_canonicalized(
    a: Seq<ResolvedProtocolClosedRoleBinding>,
    b: Seq<ResolvedProtocolClosedRoleBinding>,
) -> bool {
    &&& a.len() == b.len()
    &&& forall|i: int| 0 <= i < a.len() ==> consumers_canonicalized(#[trigger] a[i], b[i])
}

/// Every claim list of the bundle is in canonical order, and so is every closed role's list
/// of consumers.
pub open spec fn bundle_canonical(b: ResolvedProtocolBundle) -> bool {
    &&& key_sorted(b.roles@)
    &&& key_sorted(b.closed_roles@)
    &&& forall|i: int| 0 <= i < b.closed_roles@.len() ==> key_sorted((#[trigger] b.closed_roles@[i]).consumers@)
    &&& key_sorted(b.witnesses@)
    &&& key_sorted(b.cell_deps@)
    &&& key_sorted(b.header_deps@)
    &&& key_sorted(b.policies@)
}

/// Two bundles with the same fields and the same claims in the same order.
pub open spec fn same_claims(a: ResolvedProtocolBundle, b: ResolvedProtocolBundle) -> bool {
    &&& a.schema == b.schema
    &&& a.network == b.network
    &&& a.artifacts@ == b.artifacts@
    &&& a.transaction == b.transaction
    &&& a.roles@ == b.roles@
    &&& a.closed_roles@.len() == b.closed_roles@.len()
    &&& forall|i: int|
        0 <= i < a.closed_roles@.len() ==> {
            &&& consumers_canonicalized(#[trigger] a.closed_roles@[i], b.closed_roles@[i])
            &&& a.closed_roles@[i].consumers@ == b.closed_roles@[i].consumers@
        }
    &&& a.witnesses@ == b.witnesses@
    &&& a.cell_deps@ == b.cell_deps@
    &&& a.header_deps@ == b.header_deps@
    &&& a.policies@ == b.policies@
}

/// Lists related element by element, with equal keys, keep that relation within each key.
proof fn lemma_with_key_closed_roles(
    a: Seq<ResolvedProtocolClosedRoleBinding>,
    b: Seq<ResolvedProtocolClosedRoleBinding>,
    k: Seq<KeyPart>,
)
    requires
        closed_roles_canonicalized(a, b),
    ensures
        closed_roles_canonicalized(with_key(a, k), with_key(b, k)),
    decreases a.len(),
{
    if a.len() > 0 {
        let a0 = a.drop_last();
        let b0 = b.drop_last();
        assert(a =~= a0.push(a.last()));
        assert(b =~= b0.push(b.last()));
        assert(closed_roles_canonicalized(a0, b0)) by {
            assert forall|i: int| 0 <= i < a0.len() implies consumers_canonicalized(#[trigger] a0[i], b0[i]) by {
                assert(a0[i] == a[i] && b0[i] == b[i]);
            }
        }
        lemma_with_key_closed_roles(a0, b0, k);
        lemma_with_key_push(a0, a.last(), k);
        lemma_with_key_push(b0, b.last(), k);
        assert(consumers_canonicalized(a[a.len() - 1], b[a.len() - 1]));
        let wa = with_key(a, k);
        let wb = with_key(b, k);
        if a.last().sort_key() == k {
            assert forall|i: int| 0 <= i < wa.len() implies consumers_canonicalized(#[trigger] wa[i], wb[i]) by {
                if i < wa.len() - 1 {
                    assert(wa[i] == with_key(a0, k)[i] && wb[i] == with_key(b0, k)[i]);
                }
            }
        }
    } else {
        assert(with_key(a, k) =~= Seq::<ResolvedProtocolClosedRoleBinding>::empty()) by {
            reveal(Seq::filter);
        }
        assert(with_key(b, k) =~= Seq::<ResolvedProtocolClosedRoleBinding>::empty()) by {
            reveal(Seq::filter);
        }
    }
}

/// Puts each closed role's consumers in canonical order.
fn canonicalize_consumers(roles: Vec<ResolvedProtocolClosedRoleBinding>) -> (r: Vec<ResolvedProtocolClosedRoleBinding>)
    ensures
        closed_roles_canonicalized(r@, roles@),
        forall|i: int| 0 <= i < r@.len() ==> key_sorted((#[trigger] r@[i]).consumers@),
{
    let ghost orig = roles@;
    let mut rest = roles;
    let mut out: Vec<ResolvedProtocolClosedRoleBinding> = Vec::new();
    proof {
        assert(orig.skip(0) =~= orig);
    }
    while rest.len() > 0
        invariant
            out@.len() <= orig.len(),
            rest@ == orig.skip(out@.len() as int),
            forall|i: int| 0 <= i < out@.len() ==> consumers_canonicalized(#[trigger] out@[i], orig[i]),
            forall|i: int| 0 <= i < out@.len() ==> key_sorted((#[trigger] out@[i]).consumers@),
        decreases rest@.len(),
    {
        let ghost n = out@.len() as int;
        let mut role = rest.remove(0);
        proof {
            assert(role == orig[n]);
        }
        let mut consumers: Vec<ProtocolClosedRoleParticipant> = Vec::new();
        std::mem::swap(&mut consumers, &mut role.consumers);
        role.consumers = stable_sort(consumers);
        out.push(role);
        proof {
            assert(rest@ =~= orig.skip(n + 1));
        }
    }
    out
}

/// Puts every claim list of the bundle in canonical order: roles by location, index,
/// artifact and name; each closed role's consumers by artifact and claim, and the closed roles
/// by role id; witnesses by index, field, artifact and name; cell and header dependencies by
/// index, artifact and name; policies by kind, artifact and policy hash. Claims with equal
/// keys keep their order. A bundle already in canonical order is left as it was.
pub fn canonicalize_bundle(bundle: &mut ResolvedProtocolBundle)
    ensures
        final(bundle).schema == old(bundle).schema,
        final(bundle).network == old(bundle).network,
        final(bundle).artifacts == old(bundle).artifacts,
        final(bundle).transaction == old(bundle).transaction,
        canonical_of(final(bundle).roles@, old(bundle).roles@),
        key_sorted(final(bundle).closed_roles@),
        forall|k: Seq<KeyPart>|
            closed_roles_canonicalized(
                #[trigger] with_key(final(bundle).closed_roles@, k),
                with_key(old(bundle).closed_roles@, k),
            ),
        key_sorted(old(bundle).closed_roles@) ==> closed_roles_canonicalized(
            final(bundle).closed_roles@,
            old(bundle).closed_roles@,
        ),
        canonical_of(final(bundle).witnesses@, old(bundle).witnesses@),
        canonical_of(final(bundle).cell_deps@, old(bundle).cell_deps@),
        canonical_of(final(bundle).header_deps@, old(bundle).header_deps@),
        canonical_of(final(bundle).policies@, old(bundle).policies@),
        bundle_canonical(*final(bundle)),
        bundle_canonical(*old(bundle)) ==> same_claims(*final(bundle), *old(bundle)),
{
    let mut roles: Vec<ProtocolRoleBinding> = Vec::new();
    std::mem::swap(&mut roles, &mut bundle.roles);
    bundle.roles = stable_sort(roles);

    let mut closed: Vec<ResolvedProtocolClosedRoleBinding> = Vec::new();
    std::mem::swap(&mut closed, &mut bundle.closed_roles);
    let ghost closed_before = closed@;
    let mid = canonicalize_consumers(closed);
    let ghost mid_view = mid@;
    bundle.closed_roles = stable_sort(mid);
    proof {
        let after = bundle.closed_roles@;
        assert forall|k: Seq<KeyPart>|
            closed_roles_canonicalized(#[trigger] with_key(after, k), with_key(closed_before, k)) by {
            lemma_with_key_closed_roles(mid_view, closed_before, k);
        }
        if key_sorted(closed_before) {
            assert(key_sorted(mid_view)) by {
                assert forall|i: int, j: int| 0 <= i < j < mid_view.len() implies key_le(
                    (#[trigger] mid_view[i]).sort_key(),
                    (#[trigger] mid_view[j]).sort_key(),
                ) by {
                    assert(consumers_canonicalized(mid_view[i], closed_before[i]));
                    assert(consumers_canonicalized(mid_view[j], closed_before[j]));
                    assert(key_le(closed_before[i].sort_key(), closed_before[j].sort_key()));
                }
            }
        }
        lemma_stably_sorted_members(after, mid_view);
        assert forall|i: int| 0 <= i < after.len() implies key_sorted((#[trigger] after[i]).consumers@) by {
            assert(after.contains(after[i]));
            let j = choose|j: int| 0 <= j < mid_view.len() && mid_view[j] == after[i];
            assert(key_sorted(mid_view[j].consumers@));
        }
    }

    let mut witnesses: Vec<ProtocolWitnessClaim> = Vec::new();
    std::mem::swap(&mut witnesses, &mut bundle.witnesses);
    bundle.witnesses = stable_sort(witnesses);

    let mut cell_deps: Vec<ProtocolCellDepClaim> = Vec::new();
    std::mem::swap(&mut cell_deps, &mut bundle.cell_deps);
    bundle.cell_deps = stable_sort(cell_deps);

    let mut header_deps: Vec<ProtocolHeaderDepClaim> = Vec::new();
    std::mem::swap(&mut header_deps, &mut bundle.header_deps);
    bundle.header_deps = stable_sort(header_deps);

    let mut policies: Vec<ProtocolPolicyClaim> = Vec::new();
    std::mem::swap(&mut policies, &mut bundle.policies);
    bundle.policies = stable_sort(policies);
}

} // verus!
