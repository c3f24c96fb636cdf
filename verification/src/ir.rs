//! The intermediate representation's value types, as the standard library describes them.

use vstd::prelude::*;

verus! {

/// A value type of the intermediate representation.
#[derive(Debug, PartialEq)]
pub enum IrType {
    U8,
    U16,
    U32,
    I32,
    U64,
    U128,
    Bool,
    Unit,
    Address,
    Hash,
    Array(Box<IrType>, usize),
    Tuple(Vec<IrType>),
    Named(String),
    Ref(Box<IrType>),
    MutRef(Box<IrType>),
}

/// How a type's validity predicate is discharged.
#[derive(Debug, Clone, Copy, PartialEq, Eq, Structural)]
pub enum IrValidityEvidence {
    CheckedStatic,
    CheckedRuntime,
    BuilderEvidenceRequired,
}

/// One validity predicate of a type: how it reads, how it is discharged, what it depends on,
/// and where it stands.
#[derive(Debug)]
pub struct IrValidityPredicate {
    pub rendered: String,
    pub evidence: IrValidityEvidence,
    pub dependencies: Vec<String>,
    pub runtime_checked_on_create: bool,
    pub span: crate::error::Span,
}

/// A declared type with its validity predicates.
#[derive(Debug)]
pub struct IrTypeDef {
    pub name: String,
    pub validity_predicates: Vec<IrValidityPredicate>,
}

/// The output a `create_each` plan creates for each element: its type, the field values it
/// writes, and the lock it is given where one is named.
#[derive(Debug)]
pub struct IrCreateTemplate {
    pub output_type: String,
    pub fields: Vec<(String, String)>,
    pub lock: Option<String>,
}

/// A bounded `consume_each` / `create_each` over a cell collection, as lowered: the operation,
/// the collection and its element type, where the collection comes from, its declared maximum,
/// the per-element predicates and accumulator updates (rendered), the runtime contract that
/// lowers it where there is one, and what a created output looks like.
#[derive(Debug)]
pub struct IrBoundedCollectionOp {
    pub operation: String,
    pub collection_binding: String,
    pub collection_type: String,
    pub element_type: String,
    pub source: crate::ast::ParamSource,
    pub max_elements: usize,
    pub predicates: Vec<String>,
    pub accumulator_updates: Vec<String>,
    pub runtime_contract: Option<String>,
    pub element_width: Option<usize>,
    pub output_type: Option<String>,
    pub create_template: Option<IrCreateTemplate>,
    pub span: crate::error::Span,
}

/// A borrowed view of a linear root, as the region checker records it: the root, its type,
/// the view's binding, and where the region stands.
#[derive(Debug)]
pub struct IrBorrowRegion {
    pub root: String,
    pub root_type: String,
    pub binding: String,
    pub span: crate::error::Span,
}

/// A cell set an invariant reads, as the IR holds it: its source view and cell type, its source
/// rendering, the name a ProofPlan record reads its view under (none for a view that is not
/// read), and the name of the view in the runtime's source enumeration.
#[derive(Debug)]
pub struct IrAggregateTarget {
    pub source: crate::ast::SourceView,
    pub cell_type: Option<String>,
    pub rendered: String,
    pub read: Option<String>,
    pub source_label: String,
}

/// A group-amount runtime helper that the aggregate lowering offers for an aggregate, and
/// whether it may also be discharged from a current-script scan.
#[derive(Debug)]
pub struct IrAmountHelper {
    pub name: String,
    pub accepts_current_script_scan: bool,
}

/// An aggregate primitive of an invariant, with what the aggregate lowering finds for it: the
/// conservation helpers of a `sum ==` over its target, in order, and the group view a
/// group-amount endpoint of its target resolves to.
#[derive(Debug)]
pub struct IrAggregateInvariant {
    pub kind: crate::ast::AggregateInvariantKind,
    pub target: IrAggregateTarget,
    pub scope: String,
    pub argument: Option<String>,
    pub relation: Option<crate::ast::AggregateRelation>,
    pub rhs: Option<IrAggregateTarget>,
    pub span: crate::error::Span,
    pub conservation_helpers: Vec<IrAmountHelper>,
    pub amount_endpoint: Option<crate::ast::SourceView>,
}

/// A bounded `forall` / `count` over a cell set, with its predicates and expected count
/// rendered.
#[derive(Debug)]
pub struct IrBoundedQuantifier {
    pub kind: crate::ast::BoundedQuantifierKind,
    pub range: IrAggregateTarget,
    pub predicates: Vec<String>,
    pub relation: Option<crate::ast::AggregateRelation>,
    pub expected: Option<String>,
    pub span: crate::error::Span,
}

/// A field read an invariant declares: its view, its cell type and its rendering.
#[derive(Debug)]
pub struct IrInvariantRead {
    pub source: crate::ast::SourceView,
    pub cell_type: Option<String>,
    pub rendered: String,
}

/// A declared invariant as lowered.
#[derive(Debug)]
pub struct IrInvariant {
    pub name: String,
    pub trigger: Option<String>,
    pub scope: Option<String>,
    pub reads: Vec<IrInvariantRead>,
    pub assert_count: usize,
    pub aggregates: Vec<IrAggregateInvariant>,
    pub quantifiers: Vec<IrBoundedQuantifier>,
    pub span: crate::error::Span,
}

/// A runtime access an entry makes: the binding it serves and the source views it scans.
#[derive(Debug)]
pub struct CkbRuntimeAccessMetadata {
    pub binding: String,
    pub source: String,
}

} // verus!
