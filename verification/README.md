# cellscript

A verified library for the CellScript language toolchain: lexer and parser, a step-bounded
simulator, the standard-library registry, ProofPlan records and their soundness checks, schema
change acknowledgements, exact script handles and protocol bundle composition. Every function
under `src/` is checked by Verus against its `requires`/`ensures` contract; `app/` holds the
command-line shell and file handling around it.

Hashing uses CKB's default hash, BLAKE2b-256 with the `ckb-default-hash` personalization,
computed by the `blake2b-ref` crate (the pure-Rust reference BLAKE2b); hexadecimal encoding
uses the `hex` crate.

The type checker, the IR lowering and the code generator are not part of this library, and
neither is the runtime error code documentation page. The ProofPlan builders take the IR as
plain values (`src/ir.rs`): where a record needs what those components compute (how a target
or an expression renders, which view a target reads, which group-amount helpers the aggregate
lowering offers), the IR value carries it. ProofPlan records are built here for type validity
predicates, declared invariants, bounded cell collections and borrow regions; the per-entry
records built from verifier obligations are not.
