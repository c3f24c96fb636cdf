//! The scheduler metadata record: a Molecule table that tells a transaction scheduler what an
//! entry touches and how much it may cost.

use crate::ckb_hash::{ckb_blake2b256, ckb_blake2b256_digest};
use crate::text::str_eq;
use vstd::utf8::encode_utf8;
use vstd::prelude::*;

verus! {

/// Builder of scheduler metadata records.
pub struct SchedulerMetadata;

/// Scheduler-visible CKB runtime access summary.
#[derive(Debug, Clone)]
pub struct SchedulerAccess {
    pub operation: String,
    pub source: String,
    pub index: u32,
    pub binding: String,
}

/// `n` little-endian bytes of `v`, higher bytes dropped.
pub open spec fn le_bytes(v: nat, n: nat) -> Seq<u8>
    decreases n,
{
    if n == 0 {
        Seq::empty()
    } else {
        seq![(v % 256) as u8] + le_bytes(v / 256, (n - 1) as nat)
    }
}

/// A Molecule number: four little-endian bytes.
pub open spec fn molecule_number(v: nat) -> Seq<u8> {
    le_bytes(v, 4)
}

/// The fields one after the other.
pub open spec fn flatten(fields: Seq<Seq<u8>>) -> Seq<u8>
    decreases fields.len(),
{
    if fields.len() == 0 {
        Seq::empty()
    } else {
        flatten(fields.drop_last()) + fields.last()
    }
}

/// The field offsets of a Molecule table whose first field starts at `start`.
pub open spec fn table_offsets(fields: Seq<Seq<u8>>, start: nat) -> Seq<u8>
    decreases fields.len(),
{
    if fields.len() == 0 {
        Seq::empty()
    } else {
        table_offsets(fields.drop_last(), start) + molecule_number(start + flatten(fields.drop_last()).len())
    }
}

/// A Molecule table: total size, one offset per field, then the fields.
pub open spec fn molecule_table(fields: Seq<Seq<u8>>) -> Seq<u8> {
    let header = 4 * (fields.len() + 1);
    molecule_number(header + flatten(fields).len()) + table_offsets(fields, header) + flatten(fields)
}

/// The number an effect class is recorded as.
pub open spec fn effect_class_id(effect_class: Seq<char>) -> u8 {
    if effect_class == "Pure"@ {
        0
    } else if effect_class == "ReadOnly"@ {
        1
    } else if effect_class == "Mutating"@ {
        2
    } else if effect_class == "Creating"@ {
        3
    } else if effect_class == "Destroying"@ {
        4
    } else {
        0
    }
}

/// The number an access operation is recorded as.
pub open spec fn operation_id(operation: Seq<char>) -> u8 {
    if operation == "consume"@ {
        1
    } else if operation == "transfer"@ {
        2
    } else if operation == "destroy"@ {
        3
    } else if operation == "claim"@ {
        4
    } else if operation == "settle"@ {
        5
    } else if operation == "read_ref"@ {
        6
    } else if operation == "create"@ {
        7
    } else if operation == "mutate-input"@ {
        8
    } else if operation == "mutate-output"@ {
        9
    } else {
        0
    }
}

/// The number an access source is recorded as.
pub open spec fn source_id(source: Seq<char>) -> u8 {
    if source == "Input"@ {
        1
    } else if source == "CellDep"@ {
        2
    } else if source == "Output"@ {
        3
    } else {
        0
    }
}

/// One access record: operation, source, index and the hash of the binding's UTF-8 bytes.
pub open spec fn access_record(access: SchedulerAccess) -> Seq<u8> {
    seq![operation_id(access.operation@), source_id(access.source@)] + le_bytes(access.index as nat, 4)
        + ckb_blake2b256_digest(encode_utf8(access.binding@))
}

/// The access records of all accesses, in order.
pub open spec fn access_records(accesses: Seq<SchedulerAccess>) -> Seq<Seq<u8>> {
    accesses.map_values(|a: SchedulerAccess| access_record(a))
}

/// The nine fields of the scheduler record: magic, version, effect class, parallelizable flag,
/// shared-cell count, shared-cell hashes, cycle estimate, access count and access records.
pub open spec fn scheduler_fields(
    effect_class: Seq<char>,
    parallelizable: bool,
    touches_shared: Seq<Seq<u8>>,
    estimated_cycles: u64,
    accesses: Seq<SchedulerAccess>,
) -> Seq<Seq<u8>> {
    seq![
        seq![0x11u8, 0xCEu8],
        seq![1u8],
        seq![effect_class_id(effect_class)],
        seq![if parallelizable { 1u8 } else { 0u8 }],
        le_bytes(touches_shared.len(), 4),
        molecule_number(touches_shared.len()) + flatten(touches_shared),
        le_bytes(estimated_cycles as nat, 8),
        le_bytes(accesses.len(), 4),
        molecule_number(accesses.len()) + flatten(access_records(accesses)),
    ]
}

/// The scheduler record as a Molecule table of its nine fields.
pub open spec fn scheduler_record(
    effect_class: Seq<char>,
    parallelizable: bool,
    touches_shared: Seq<Seq<u8>>,
    estimated_cycles: u64,
    accesses: Seq<SchedulerAccess>,
) -> Seq<u8> {
    molecule_table(scheduler_fields(effect_class, parallelizable, touches_shared, estimated_cycles, accesses))
}

pub(crate) fn push_le_bytes(out: &mut Vec<u8>, v: u64, n: usize)
    ensures
        final(out)@ == old(out)@ + le_bytes(v as nat, n as nat),
    decreases n,
{
    if n > 0 {
        out.push((v % 256) as u8);
        push_le_bytes(out, v / 256, n - 1);
        assert(final(out)@ =~= old(out)@ + le_bytes(v as nat, n as nat));
    } else {
        assert(final(out)@ =~= old(out)@ + le_bytes(v as nat, n as nat));
    }
}

fn push_molecule_number(out: &mut Vec<u8>, v: usize)
    ensures
        final(out)@ == old(out)@ + molecule_number(v as nat),
{
    push_le_bytes(out, v as u64, 4);
}

fn le_vec(v: u64, n: usize) -> (r: Vec<u8>)
    ensures
        r@ == le_bytes(v as nat, n as nat),
{
    let mut r: Vec<u8> = Vec::new();
    push_le_bytes(&mut r, v, n);
    assert(r@ =~= le_bytes(v as nat, n as nat));
    r
}

pub(crate) fn append_bytes(out: &mut Vec<u8>, bytes: &[u8])
    ensures
        final(out)@ == old(out)@ + bytes@,
{
    let mut i: usize = 0;
    while i < bytes.len()
        invariant
            i <= bytes@.len(),
            out@ == old(out)@ + bytes@.take(i as int),
        decreases bytes@.len() - i,
    {
        out.push(bytes[i]);
        i += 1;
        assert(out@ =~= old(out)@ + bytes@.take(i as int));
    }
    assert(bytes@.take(bytes@.len() as int) =~= bytes@);
}

/// The views of a list of byte vectors.
pub open spec fn views(fields: Seq<Vec<u8>>) -> Seq<Seq<u8>> {
    fields.map_values(|f: Vec<u8>| f@)
}

proof fn lemma_flatten_push(fields: Seq<Seq<u8>>, i: int)
    requires
        0 <= i < fields.len(),
    ensures
        flatten(fields.take(i + 1)) == flatten(fields.take(i)) + fields[i],
        table_offsets(fields.take(i + 1), 0) == table_offsets(fields.take(i), 0) + molecule_number(
            flatten(fields.take(i)).len(),
        ),
{
    assert(fields.take(i + 1).drop_last() =~= fields.take(i));
}

/// The total length of the fields, when it fits in a machine word.
fn total_length(fields: &Vec<Vec<u8>>) -> (r: usize)
    requires
        flatten(views(fields@)).len() <= usize::MAX,
    ensures
        r == flatten(views(fields@)).len(),
{
    let ghost fs = views(fields@);
    let mut total: usize = 0;
    let mut i: usize = 0;
    while i < fields.len()
        invariant
            fs == views(fields@),
            i <= fields@.len(),
            total == flatten(fs.take(i as int)).len(),
            flatten(fs).len() <= usize::MAX,
        decreases fields@.len() - i,
    {
        proof {
            lemma_flatten_push(fs, i as int);
            lemma_flatten_prefix_len(fs, i + 1);
        }
        total = total + fields[i].len();
        i += 1;
    }
    assert(fs.take(fields@.len() as int) =~= fs);
    total
}

proof fn lemma_flatten_prefix_len(fields: Seq<Seq<u8>>, k: int)
    requires
        0 <= k <= fields.len(),
    ensures
        flatten(fields.take(k)).len() <= flatten(fields).len(),
    decreases fields.len() - k,
{
    if k < fields.len() {
        lemma_flatten_prefix_len(fields, k + 1);
        lemma_flatten_push(fields, k);
    } else {
        assert(fields.take(k) =~= fields);
    }
}

/// Encodes `fields` as a Molecule table.
fn encode_table(fields: &Vec<Vec<u8>>) -> (r: Vec<u8>)
    requires
        4 * (fields@.len() + 1) + flatten(views(fields@)).len() <= usize::MAX,
    ensures
        r@ == molecule_table(views(fields@)),
{
    let ghost fs = views(fields@);
    let header_size: usize = 4 * (fields.len() + 1);
    let total_size: usize = header_size + total_length(fields);
    let mut out: Vec<u8> = Vec::new();
    push_molecule_number(&mut out, total_size);
    let mut offset: usize = header_size;
    let mut i: usize = 0;
    assert(out@ =~= molecule_number(total_size as nat));
    while i < fields.len()
        invariant
            fs == views(fields@),
            i <= fields@.len(),
            header_size == 4 * (fields@.len() + 1),
            total_size == header_size + flatten(fs).len(),
            total_size <= usize::MAX,
            offset == header_size + flatten(fs.take(i as int)).len(),
            out@ == molecule_number(total_size as nat) + table_offsets(fs.take(i as int), header_size as nat),
        decreases fields@.len() - i,
    {
        proof {
            assert(fs.take(i + 1).drop_last() =~= fs.take(i as int));
            lemma_flatten_push(fs, i as int);
            lemma_flatten_prefix_len(fs, i + 1);
        }
        push_molecule_number(&mut out, offset);
        offset = offset + fields[i].len();
        i += 1;
    }
    assert(fs.take(fields@.len() as int) =~= fs);
    let ghost before = out@;
    let mut j: usize = 0;
    while j < fields.len()
        invariant
            fs == views(fields@),
            j <= fields@.len(),
            out@ == before + flatten(fs.take(j as int)),
        decreases fields@.len() - j,
    {
        proof {
            lemma_flatten_push(fs, j as int);
        }
        append_bytes(&mut out, fields[j].as_slice());
        j += 1;
    }
    proof {
        assert(fs.take(fields@.len() as int) =~= fs);
        assert(out@ =~= molecule_table(fs));
    }
    out
}

/// The 32-byte values, flattened.
pub open spec fn byte32_views(values: Seq<[u8; 32]>) -> Seq<Seq<u8>> {
    values.map_values(|v: [u8; 32]| v@)
}

fn encode_fixvec_byte32(values: &Vec<[u8; 32]>) -> (r: Vec<u8>)
    ensures
        r@ == molecule_number(values@.len()) + flatten(byte32_views(values@)),
{
    let ghost vs = byte32_views(values@);
    let mut out: Vec<u8> = Vec::new();
    push_molecule_number(&mut out, values.len());
    let ghost before = out@;
    let mut i: usize = 0;
    while i < values.len()
        invariant
            vs == byte32_views(values@),
            i <= values@.len(),
            out@ == before + flatten(vs.take(i as int)),
        decreases values@.len() - i,
    {
        proof {
            lemma_flatten_push(vs, i as int);
        }
        append_bytes(&mut out, values[i].as_slice());
        i += 1;
    }
    proof {
        assert(vs.take(values@.len() as int) =~= vs);
        assert(before =~= molecule_number(values@.len()));
    }
    out
}

fn encode_fixvec_access(accesses: &Vec<Vec<u8>>) -> (r: Vec<u8>)
    ensures
        r@ == molecule_number(accesses@.len()) + flatten(views(accesses@)),
{
    let ghost vs = views(accesses@);
    let mut out: Vec<u8> = Vec::new();
    push_molecule_number(&mut out, accesses.len());
    let ghost before = out@;
    let mut i: usize = 0;
    while i < accesses.len()
        invariant
            vs == views(accesses@),
            i <= accesses@.len(),
            out@ == before + flatten(vs.take(i as int)),
        decreases accesses@.len() - i,
    {
        proof {
            lemma_flatten_push(vs, i as int);
        }
        append_bytes(&mut out, accesses[i].as_slice());
        i += 1;
    }
    proof {
        assert(vs.take(accesses@.len() as int) =~= vs);
        assert(before =~= molecule_number(accesses@.len()));
    }
    out
}

/// The number of an operation name.
fn scheduler_operation_id(operation: &str) -> (r: u8)
    ensures
        r == operation_id(operation@),
{
    if str_eq(operation, "consume") {
        1
    } else if str_eq(operation, "transfer") {
        2
    } else if str_eq(operation, "destroy") {
        3
    } else if str_eq(operation, "claim") {
        4
    } else if str_eq(operation, "settle") {
        5
    } else if str_eq(operation, "read_ref") {
        6
    } else if str_eq(operation, "create") {
        7
    } else if str_eq(operation, "mutate-input") {
        8
    } else if str_eq(operation, "mutate-output") {
        9
    } else {
        0
    }
}

/// The number of a source name.
fn scheduler_source_id(source: &str) -> (r: u8)
    ensures
        r == source_id(source@),
{
    if str_eq(source, "Input") {
        1
    } else if str_eq(source, "CellDep") {
        2
    } else if str_eq(source, "Output") {
        3
    } else {
        0
    }
}

fn scheduler_effect_class_id(effect_class: &str) -> (r: u8)
    ensures
        r == effect_class_id(effect_class@),
{
    if str_eq(effect_class, "Pure") {
        0
    } else if str_eq(effect_class, "ReadOnly") {
        1
    } else if str_eq(effect_class, "Mutating") {
        2
    } else if str_eq(effect_class, "Creating") {
        3
    } else if str_eq(effect_class, "Destroying") {
        4
    } else {
        0
    }
}

fn encode_access(access: &SchedulerAccess) -> (r: Vec<u8>)
    ensures
        r@ == access_record(*access),
        r@.len() == 38,
{
    let mut out: Vec<u8> = Vec::new();
    out.push(scheduler_operation_id(access.operation.as_str()));
    out.push(scheduler_source_id(access.source.as_str()));
    push_le_bytes(&mut out, access.index as u64, 4);
    let digest = ckb_blake2b256(access.binding.as_str().as_bytes());
    append_bytes(&mut out, digest.as_slice());
    proof {
        assert(out@ =~= access_record(*access));
        lemma_le_bytes_len(access.index as nat, 4);
    }
    out
}

proof fn lemma_le_bytes_len(v: nat, n: nat)
    ensures
        le_bytes(v, n).len() == n,
    decreases n,
{
    if n > 0 {
        lemma_le_bytes_len(v / 256, (n - 1) as nat);
    }
}

proof fn lemma_flatten_fixed(fields: Seq<Seq<u8>>, width: nat)
    requires
        forall|i: int| 0 <= i < fields.len() ==> (#[trigger] fields[i]).len() == width,
    ensures
        flatten(fields).len() == fields.len() * width,
    decreases fields.len(),
{
    if fields.len() > 0 {
        lemma_flatten_fixed(fields.drop_last(), width);
        assert((fields.len() - 1) * width + width == fields.len() * width) by (nonlinear_arith);
    }
}


fn encode_accesses(accesses: &Vec<SchedulerAccess>) -> (r: Vec<u8>)
    ensures
        r@ == molecule_number(accesses@.len()) + flatten(access_records(accesses@)),
        flatten(access_records(accesses@)).len() == 38 * accesses@.len(),
{
    let mut records: Vec<Vec<u8>> = Vec::new();
    let mut i: usize = 0;
    while i < accesses.len()
        invariant
            i <= accesses@.len(),
            records@.len() == i,
            forall|j: int| 0 <= j < i ==> (#[trigger] records@[j])@ == access_record(accesses@[j]),
            forall|j: int| 0 <= j < i ==> (#[trigger] records@[j])@.len() == 38,
        decreases accesses@.len() - i,
    {
        let record = encode_access(&accesses[i]);
        records.push(record);
        i += 1;
    }
    proof {
        assert(views(records@) =~= access_records(accesses@));
        lemma_flatten_fixed(views(records@), 38);
        assert(accesses@.len() * 38 == 38 * accesses@.len()) by (nonlinear_arith);
    }
    encode_fixvec_access(&records)
}

fn build_fields(
    effect_class: &str,
    parallelizable: bool,
    touches_shared: &Vec<[u8; 32]>,
    estimated_cycles: u64,
    accesses: &Vec<SchedulerAccess>,
) -> (fields: Vec<Vec<u8>>)
    ensures
        views(fields@) == scheduler_fields(
            effect_class@,
            parallelizable,
            byte32_views(touches_shared@),
            estimated_cycles,
            accesses@,
        ),
        flatten(access_records(accesses@)).len() == 38 * accesses@.len(),
{
    let mut fields: Vec<Vec<u8>> = Vec::new();
    fields.push(le_vec(0xCE11u64, 2));
    fields.push(le_vec(1, 1));
    fields.push(le_vec(scheduler_effect_class_id(effect_class) as u64, 1));
    fields.push(le_vec(if parallelizable { 1 } else { 0 }, 1));
    fields.push(le_vec(touches_shared.len() as u64, 4));
    fields.push(encode_fixvec_byte32(touches_shared));
    fields.push(le_vec(estimated_cycles, 8));
    fields.push(le_vec(accesses.len() as u64, 4));
    fields.push(encode_accesses(accesses));
    proof {
        reveal_with_fuel(le_bytes, 3);
        let fs = views(fields@);
        assert(fs[0] =~= seq![0x11u8, 0xCEu8]);
        assert(fs[1] =~= seq![1u8]);
        assert(fs[2] =~= seq![effect_class_id(effect_class@)]);
        assert(fs[3] =~= seq![if parallelizable { 1u8 } else { 0u8 }]);
        assert(views(fields@) =~= scheduler_fields(
            effect_class@,
            parallelizable,
            byte32_views(touches_shared@),
            estimated_cycles,
            accesses@,
        ));
    }
    fields
}

proof fn lemma_table_offsets_len(fields: Seq<Seq<u8>>, start: nat)
    ensures
        table_offsets(fields, start).len() == 4 * fields.len(),
    decreases fields.len(),
{
    if fields.len() > 0 {
        lemma_table_offsets_len(fields.drop_last(), start);
        lemma_le_bytes_len(start + flatten(fields.drop_last()).len(), 4);
    }
}

proof fn lemma_scheduler_fields_len(
    effect_class: Seq<char>,
    parallelizable: bool,
    touches_shared: Seq<Seq<u8>>,
    estimated_cycles: u64,
    accesses: Seq<SchedulerAccess>,
)
    requires
        forall|i: int| 0 <= i < touches_shared.len() ==> (#[trigger] touches_shared[i]).len() == 32,
        flatten(access_records(accesses)).len() == 38 * accesses.len(),
    ensures
        flatten(scheduler_fields(effect_class, parallelizable, touches_shared, estimated_cycles, accesses)).len() == 29
            + 32 * touches_shared.len() + 38 * accesses.len(),
{
    let fs = scheduler_fields(effect_class, parallelizable, touches_shared, estimated_cycles, accesses);
    lemma_flatten_fixed(touches_shared, 32);
    lemma_le_bytes_len(touches_shared.len(), 4);
    lemma_le_bytes_len(estimated_cycles as nat, 8);
    lemma_le_bytes_len(accesses.len(), 4);
    assert(touches_shared.len() * 32 == 32 * touches_shared.len()) by (nonlinear_arith);
    assert(fs.take(0) =~= Seq::<Seq<u8>>::empty());
    lemma_flatten_push(fs, 0);
    lemma_flatten_push(fs, 1);
    lemma_flatten_push(fs, 2);
    lemma_flatten_push(fs, 3);
    lemma_flatten_push(fs, 4);
    lemma_flatten_push(fs, 5);
    lemma_flatten_push(fs, 6);
    lemma_flatten_push(fs, 7);
    lemma_flatten_push(fs, 8);
    assert(fs[5].len() == 4 + 32 * touches_shared.len());
    assert(fs[8].len() == 4 + 38 * accesses.len());
    assert(fs.take(9) =~= fs);
    assert(fs.take(9) =~= fs);
}

impl SchedulerMetadata {
    /// The scheduler metadata record of an entry.
    pub fn generate(
        effect_class: &str,
        parallelizable: bool,
        touches_shared: Vec<[u8; 32]>,
        estimated_cycles: u64,
        accesses: Vec<SchedulerAccess>,
    ) -> (r: Vec<u8>)
        requires
            32 * touches_shared@.len() + 38 * accesses@.len() + 128 <= usize::MAX,
        ensures
            r@ == scheduler_record(
                effect_class@,
                parallelizable,
                byte32_views(touches_shared@),
                estimated_cycles,
                accesses@,
            ),
            r@.len() == 69 + 32 * touches_shared@.len() + 38 * accesses@.len(),
    {
        Self::generate_molecule(effect_class, parallelizable, touches_shared, estimated_cycles, accesses)
    }

    /// The scheduler metadata record as a Molecule table of nine fields: magic, version, effect
    /// class, parallelizable flag, shared-cell count and hashes, cycle estimate, access count and
    /// access records.
    pub fn generate_molecule(
        effect_class: &str,
        parallelizable: bool,
        touches_shared: Vec<[u8; 32]>,
        estimated_cycles: u64,
        accesses: Vec<SchedulerAccess>,
    ) -> (r: Vec<u8>)
        requires
            32 * touches_shared@.len() + 38 * accesses@.len() + 128 <= usize::MAX,
        ensures
            r@ == scheduler_record(
                effect_class@,
                parallelizable,
                byte32_views(touches_shared@),
                estimated_cycles,
                accesses@,
            ),
            r@.len() == 69 + 32 * touches_shared@.len() + 38 * accesses@.len(),
    {
        let fields = build_fields(effect_class, parallelizable, &touches_shared, estimated_cycles, &accesses);
        proof {
            lemma_scheduler_fields_len(
                effect_class@,
                parallelizable,
                byte32_views(touches_shared@),
                estimated_cycles,
                accesses@,
            );
            lemma_table_offsets_len(views(fields@), 40);
            lemma_le_bytes_len(40 + flatten(views(fields@)).len(), 4);
        }
        encode_table(&fields)
    }
}

} // verus!
