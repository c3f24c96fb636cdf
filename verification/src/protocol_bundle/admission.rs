//! Which deployment-line admission evidence a bundle accepts, by the artifacts it names.

use crate::error::{CompileError, Result};
use crate::simulate::value::{join_strings, spec_join};
use crate::text::{concat2, concat3, str_eq};
use vstd::prelude::*;

verus! {

/// Whether one of `ids` is `id`.
pub open spec fn names(ids: Seq<String>, id: Seq<char>) -> bool {
    exists|j: int| 0 <= j < ids.len() && (#[trigger] ids[j])@ == id
}

/// The error the evidence at position `i` draws by the artifact it names: an artifact already
/// bound by earlier evidence, one outside the ckb-type-hash profile (`required`), or one no
/// admitted artifact has (`known`).
pub open spec fn evidence_id_error(ids: Seq<String>, required: Seq<String>, known: Seq<String>, i: int) -> Option<Seq<char>> {
    let id = ids[i]@;
    if names(ids.take(i), id) {
        Some("duplicate deployment-line admission evidence for ProtocolBundle artifact '"@ + id + "'"@)
    } else if !names(required, id) {
        Some("deployment-line admission evidence targets artifact '"@ + id + "' outside the ckb-type-hash profile"@)
    } else if !names(known, id) {
        Some("deployment-line admission evidence references unknown ProtocolBundle artifact '"@ + id + "'"@)
    } else {
        None
    }
}

/// The first `n` required artifacts, in order, that no evidence binds.
pub open spec fn unbound(required: Seq<String>, ids: Seq<String>, n: int) -> Seq<String>
    decreases n,
{
    if n <= 0 {
        Seq::empty()
    } else if names(ids, required[n - 1]@) {
        unbound(required, ids, n - 1)
    } else {
        unbound(required, ids, n - 1).push(required[n - 1])
    }
}

/// The message for required artifacts that no evidence binds.
pub open spec fn unbound_message(missing: Seq<String>) -> Seq<char> {
    "ckb-type-hash ProtocolBundle artifacts require exact active deployment-line admission evidence; missing: "@
        + spec_join(missing, missing.len() as int)
}

/// `validate` may accept the evidence at position `i`.
pub open spec fn accepted<F: Fn(usize) -> Result<()>>(validate: F, i: int) -> bool {
    exists|out: Result<()>| #[trigger] call_ensures(validate, (i as usize,), out) && out is Ok
}

/// Every evidence before position `k` named an artifact it may bind, and `validate` accepted it.
pub open spec fn admitted_before<F: Fn(usize) -> Result<()>>(
    ids: Seq<String>,
    required: Seq<String>,
    known: Seq<String>,
    validate: F,
    k: int,
) -> bool {
    forall|i: int|
        0 <= i < k ==> #[trigger] evidence_id_error(ids, required, known, i) is None && accepted(validate, i)
}

/// Admits deployment-line evidence, each naming an artifact by `ids`, in order: evidence for an
/// artifact already bound, outside the ckb-type-hash profile (`required`), or not among the
/// admitted artifacts (`known`) is refused, then `validate` checks the evidence at its position;
/// at the end, every required artifact must be bound, and those that are not are listed in the
/// order of `required`.
pub fn admit_deployment_lines<F: Fn(usize) -> Result<()>>(
    ids: &Vec<String>,
    required: &Vec<String>,
    known: &Vec<String>,
    validate: F,
) -> (r: Result<()>)
    requires
        forall|i: usize| call_requires(validate, (i,)),
    ensures
        r is Ok ==> admitted_before(ids@, required@, known@, validate, ids@.len() as int) && unbound(
            required@,
            ids@,
            required@.len() as int,
        ).len() == 0,
        r matches Err(e) ==> (exists|k: int|
            #![trigger admitted_before(ids@, required@, known@, validate, k)]
            0 <= k < ids@.len() && admitted_before(ids@, required@, known@, validate, k) && match evidence_id_error(
                ids@,
                required@,
                known@,
                k,
            ) {
                Some(m) => e.message@ == m,
                None => call_ensures(validate, (k as usize,), Err::<(), CompileError>(e)),
            }) || (admitted_before(ids@, required@, known@, validate, ids@.len() as int) && unbound(
            required@,
            ids@,
            required@.len() as int,
        ).len() > 0 && e.message@ == unbound_message(unbound(required@, ids@, required@.len() as int))),
        (forall|i: int| 0 <= i < ids@.len() ==> #[trigger] evidence_id_error(ids@, required@, known@, i) is None)
            && (forall|i: usize, out: Result<()>| call_ensures(validate, (i,), out) ==> out is Ok) && unbound(
            required@,
            ids@,
            required@.len() as int,
        ).len() == 0 ==> r is Ok,
{
    let mut i: usize = 0;
    while i < ids.len()
        invariant
            i <= ids@.len(),
            forall|i: usize| call_requires(validate, (i,)),
            admitted_before(ids@, required@, known@, validate, i as int),
        decreases ids@.len() - i,
    {
        let id = ids[i].as_str();
        let mut j: usize = 0;
        while j < i
            invariant
                j <= i < ids@.len(),
                id@ == ids@[i as int]@,
                forall|k: int| 0 <= k < j ==> (#[trigger] ids@[k])@ != id@,
                admitted_before(ids@, required@, known@, validate, i as int),
            decreases i - j,
        {
            if str_eq(ids[j].as_str(), id) {
                assert(ids@.take(i as int)[j as int] == ids@[j as int]);
                assert(names(ids@.take(i as int), id@));
                let e = CompileError::without_span(
                    concat3("duplicate deployment-line admission evidence for ProtocolBundle artifact '", id, "'").as_str(),
                );
                assert(admitted_before(ids@, required@, known@, validate, i as int));
                return Err(e);
            }
            j += 1;
        }
        assert(!names(ids@.take(i as int), id@)) by {
            if names(ids@.take(i as int), id@) {
                let w = choose|w: int| 0 <= w < i && (#[trigger] ids@.take(i as int)[w])@ == id@;
                assert(ids@.take(i as int)[w] == ids@[w]);
            }
        }
        if !contains_id(required, id) {
            let e = CompileError::without_span(
                concat3("deployment-line admission evidence targets artifact '", id, "' outside the ckb-type-hash profile").as_str(),
            );
            assert(admitted_before(ids@, required@, known@, validate, i as int));
            return Err(e);
        }
        if !contains_id(known, id) {
            let e = CompileError::without_span(
                concat3("deployment-line admission evidence references unknown ProtocolBundle artifact '", id, "'").as_str(),
            );
            assert(admitted_before(ids@, required@, known@, validate, i as int));
            return Err(e);
        }
        let outcome = validate(i);
        let ghost seen = outcome;
        assert(call_ensures(validate, (i,), seen));
        if let Err(e) = outcome {
            assert(admitted_before(ids@, required@, known@, validate, i as int));
            return Err(e);
        }
        assert(seen is Ok);
        assert(((i as int) as usize) == i);
        assert(call_ensures(validate, (((i as int) as usize),), seen));
        assert(accepted(validate, i as int));
        assert(evidence_id_error(ids@, required@, known@, i as int) is None);
        assert forall|k: int| 0 <= k < i + 1 implies #[trigger] evidence_id_error(ids@, required@, known@, k) is None
            && accepted(validate, k) by {
            if k < i {
                assert(admitted_before(ids@, required@, known@, validate, i as int));
            }
        }
        i += 1;
    }
    let mut missing: Vec<String> = Vec::new();
    let mut k: usize = 0;
    while k < required.len()
        invariant
            k <= required@.len(),
            missing@ == unbound(required@, ids@, k as int),
        decreases required@.len() - k,
    {
        if !contains_id(ids, required[k].as_str()) {
            missing.push(required[k].clone());
        }
        k += 1;
    }
    if missing.len() > 0 {
        let listed = join_strings(&missing);
        let m = concat2(
            "ckb-type-hash ProtocolBundle artifacts require exact active deployment-line admission evidence; missing: ",
            listed.as_str(),
        );
        return Err(CompileError::without_span(m.as_str()));
    }
    Ok(())
}

/// Whether one of `ids` is `id`.
fn contains_id(ids: &Vec<String>, id: &str) -> (r: bool)
    ensures
        r == names(ids@, id@),
{
    let mut j: usize = 0;
    while j < ids.len()
        invariant
            j <= ids@.len(),
            forall|k: int| 0 <= k < j ==> (#[trigger] ids@[k])@ != id@,
        decreases ids@.len() - j,
    {
        if str_eq(ids[j].as_str(), id) {
            return true;
        }
        j += 1;
    }
    false
}

} // verus!
