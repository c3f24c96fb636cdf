//! The syntax tree of a CellScript module.

use crate::error::Span;
use crate::text::str_eq;
use vstd::prelude::*;
use vstd::string::StringExecFns;

verus! {

#[derive(Debug, PartialEq)]
pub struct Module {
    pub name: String,
    pub items: Vec<Item>,
    /// The declared visibility of each named item, by name; a later item of the same name replaces an earlier one.
    pub visibilities: Vec<(String, Visibility)>,
    pub span: Span,
}

#[derive(Debug, Clone, Copy, PartialEq, Eq, Structural)]
pub enum Visibility {
    LegacyPublic,
    Private,
    Public,
    Package,
}

#[derive(Debug, PartialEq)]
pub enum Item {
    Use(UseStmt),
    Resource(ResourceDef),
    Shared(SharedDef),
    Receipt(ReceiptDef),
    Struct(StructDef),
    Flow(FlowDef),
    Invariant(InvariantDef),
    Const(ConstDef),
    Enum(EnumDef),
    Action(ActionDef),
    Function(FnDef),
    Lock(LockDef),
}

impl Item {
    /// The name an item declares; `use` items and unnamed flows declare none.
    pub open spec fn spec_name(&self) -> Option<Seq<char>> {
        match self {
            Item::Use(_) => None,
            Item::Resource(d) => Some(d.name@),
            Item::Shared(d) => Some(d.name@),
            Item::Receipt(d) => Some(d.name@),
            Item::Struct(d) => Some(d.name@),
            Item::Flow(d) => match d.name {
                Some(n) => Some(n@),
                None => None,
            },
            Item::Invariant(d) => Some(d.name@),
            Item::Const(d) => Some(d.name@),
            Item::Enum(d) => Some(d.name@),
            Item::Action(d) => Some(d.name@),
            Item::Function(d) => Some(d.name@),
            Item::Lock(d) => Some(d.name@),
        }
    }

    /// The name this item declares, if it declares one.
    pub fn name(&self) -> (r: Option<String>)
        ensures
            r is Some <==> self.spec_name() is Some,
            r matches Some(n) ==> Some(n@) == self.spec_name(),
    {
        match self {
            Item::Use(_) => None,
            Item::Resource(d) => Some(d.name.clone()),
            Item::Shared(d) => Some(d.name.clone()),
            Item::Receipt(d) => Some(d.name.clone()),
            Item::Struct(d) => Some(d.name.clone()),
            Item::Flow(d) => match &d.name {
                Some(n) => Some(n.clone()),
                None => None,
            },
            Item::Invariant(d) => Some(d.name.clone()),
            Item::Const(d) => Some(d.name.clone()),
            Item::Enum(d) => Some(d.name.clone()),
            Item::Action(d) => Some(d.name.clone()),
            Item::Function(d) => Some(d.name.clone()),
            Item::Lock(d) => Some(d.name.clone()),
        }
    }
}

#[derive(Debug, Clone, PartialEq)]
pub struct UseStmt {
    pub module_segments: Vec<String>,
    pub imports: Vec<UseImport>,
    pub span: Span,
}

#[derive(Debug, Clone, PartialEq)]
pub struct UseImport {
    pub name: String,
    pub alias: Option<String>,
}

#[derive(Debug, Clone, PartialEq)]
pub struct TypeIdentity {
    pub value: String,
    pub span: Span,
}

/// Lifecycle capabilities a Cell-backed type may grant.
#[derive(Debug, Clone, Copy, PartialEq, Eq, Structural)]
pub enum Capability {
    Store,
    Transfer,
    Replace,
    Relock,
    Consume,
    Burn,
    Destroy,
}

impl Capability {
    /// The capability a source word names.
    pub open spec fn spec_from_source_name(name: Seq<char>) -> Option<Capability> {
        if name == "store"@ {
            Some(Capability::Store)
        } else if name == "transfer"@ {
            Some(Capability::Transfer)
        } else if name == "replace"@ {
            Some(Capability::Replace)
        } else if name == "relock"@ {
            Some(Capability::Relock)
        } else if name == "consume"@ {
            Some(Capability::Consume)
        } else if name == "burn"@ {
            Some(Capability::Burn)
        } else if name == "destroy"@ {
            Some(Capability::Destroy)
        } else {
            None
        }
    }

    pub fn from_source_name(name: &str) -> (r: Option<Capability>)
        ensures
            r == Self::spec_from_source_name(name@),
    {
        if str_eq(name, "store") {
            Some(Capability::Store)
        } else if str_eq(name, "transfer") {
            Some(Capability::Transfer)
        } else if str_eq(name, "replace") {
            Some(Capability::Replace)
        } else if str_eq(name, "relock") {
            Some(Capability::Relock)
        } else if str_eq(name, "consume") {
            Some(Capability::Consume)
        } else if str_eq(name, "burn") {
            Some(Capability::Burn)
        } else if str_eq(name, "destroy") {
            Some(Capability::Destroy)
        } else {
            None
        }
    }
}

/// Constraints a value type or type parameter may carry.
#[derive(Debug, Clone, Copy, PartialEq, Eq, Structural)]
pub enum ValueAbility {
    Copy,
    Drop,
    Store,
    Fixed,
    Serializable,
    NonLinear,
    Cell,
}

impl ValueAbility {
    pub open spec fn spec_from_source_name(name: Seq<char>) -> Option<ValueAbility> {
        if name == "copy"@ {
            Some(ValueAbility::Copy)
        } else if name == "drop"@ {
            Some(ValueAbility::Drop)
        } else if name == "store"@ {
            Some(ValueAbility::Store)
        } else if name == "fixed"@ {
            Some(ValueAbility::Fixed)
        } else if name == "serializable"@ {
            Some(ValueAbility::Serializable)
        } else if name == "non_linear"@ {
            Some(ValueAbility::NonLinear)
        } else if name == "cell"@ {
            Some(ValueAbility::Cell)
        } else {
            None
        }
    }

    pub fn from_source_name(name: &str) -> (r: Option<ValueAbility>)
        ensures
            r == Self::spec_from_source_name(name@),
    {
        if str_eq(name, "copy") {
            Some(ValueAbility::Copy)
        } else if str_eq(name, "drop") {
            Some(ValueAbility::Drop)
        } else if str_eq(name, "store") {
            Some(ValueAbility::Store)
        } else if str_eq(name, "fixed") {
            Some(ValueAbility::Fixed)
        } else if str_eq(name, "serializable") {
            Some(ValueAbility::Serializable)
        } else if str_eq(name, "non_linear") {
            Some(ValueAbility::NonLinear)
        } else if str_eq(name, "cell") {
            Some(ValueAbility::Cell)
        } else {
            None
        }
    }

    pub open spec fn spec_as_str(self) -> Seq<char> {
        match self {
            ValueAbility::Copy => "copy"@,
            ValueAbility::Drop => "drop"@,
            ValueAbility::Store => "store"@,
            ValueAbility::Fixed => "fixed"@,
            ValueAbility::Serializable => "serializable"@,
            ValueAbility::NonLinear => "non_linear"@,
            ValueAbility::Cell => "cell"@,
        }
    }

    /// The source spelling of this ability.
    pub fn as_str(self) -> (s: &'static str)
        ensures
            s@ == self.spec_as_str(),
    {
        match self {
            ValueAbility::Copy => "copy",
            ValueAbility::Drop => "drop",
            ValueAbility::Store => "store",
            ValueAbility::Fixed => "fixed",
            ValueAbility::Serializable => "serializable",
            ValueAbility::NonLinear => "non_linear",
            ValueAbility::Cell => "cell",
        }
    }
}

#[derive(Debug, Clone, Copy, PartialEq, Eq, Structural)]
pub enum EffectClass {
    Pure,
    ReadOnly,
    Mutating,
    Creating,
    Destroying,
}

#[derive(Debug, Clone, Copy, PartialEq, Eq, Structural)]
pub struct SchedulerHint {
    pub parallelizable: bool,
    pub estimated_cycles: u64,
}

#[derive(Debug, Clone, PartialEq)]
pub struct TypeParam {
    pub name: String,
    pub constraints: Vec<ValueAbility>,
    pub phantom: bool,
    pub span: Span,
}

/// How a Cell-backed type's identity is established.
#[derive(Debug, Clone, PartialEq)]
pub enum IdentityPolicy {
    NoIdentity,
    CkbTypeId,
    Field(String),
    ScriptArgs,
    SingletonType,
}

#[derive(Debug, Clone, PartialEq)]
pub struct HashTypeDecl {
    pub value: String,
    pub span: Span,
}

#[derive(Debug, Clone, Copy, PartialEq)]
pub struct CapacityFloorDecl {
    pub shannons: u64,
    pub span: Span,
}

#[derive(Debug, PartialEq)]
pub struct Field {
    pub name: String,
    pub ty: Type,
    pub span: Span,
}

#[derive(Debug, PartialEq)]
pub struct ValidityBlock {
    pub predicates: Vec<Expr>,
    pub span: Span,
}

#[derive(Debug, PartialEq)]
pub struct ResourceDef {
    pub name: String,
    pub type_id: Option<TypeIdentity>,
    pub identity: IdentityPolicy,
    pub default_hash_type: Option<HashTypeDecl>,
    pub capacity_floor: Option<CapacityFloorDecl>,
    pub capabilities: Vec<Capability>,
    pub fields: Vec<Field>,
    pub validity: Option<ValidityBlock>,
    pub span: Span,
}

#[derive(Debug, PartialEq)]
pub struct SharedDef {
    pub name: String,
    pub type_id: Option<TypeIdentity>,
    pub identity: IdentityPolicy,
    pub default_hash_type: Option<HashTypeDecl>,
    pub capacity_floor: Option<CapacityFloorDecl>,
    pub capabilities: Vec<Capability>,
    pub fields: Vec<Field>,
    pub validity: Option<ValidityBlock>,
    pub span: Span,
}

#[derive(Debug, PartialEq)]
pub struct ReceiptDef {
    pub name: String,
    pub type_id: Option<TypeIdentity>,
    pub identity: IdentityPolicy,
    pub default_hash_type: Option<HashTypeDecl>,
    pub capacity_floor: Option<CapacityFloorDecl>,
    pub claim_output: Option<Type>,
    pub capabilities: Vec<Capability>,
    pub fields: Vec<Field>,
    pub validity: Option<ValidityBlock>,
    pub span: Span,
}

#[derive(Debug, PartialEq)]
pub struct StructDef {
    pub name: String,
    pub type_params: Vec<TypeParam>,
    pub abilities: Vec<ValueAbility>,
    pub type_id: Option<TypeIdentity>,
    pub default_hash_type: Option<HashTypeDecl>,
    pub capacity_floor: Option<CapacityFloorDecl>,
    pub fields: Vec<Field>,
    pub validity: Option<ValidityBlock>,
    pub span: Span,
}

#[derive(Debug, Clone, PartialEq)]
pub struct StateFieldPath {
    pub base: String,
    pub field: String,
    pub span: Span,
}

#[derive(Debug, Clone, PartialEq)]
pub struct StateTransition {
    pub from: String,
    pub to: String,
    pub action: Option<String>,
    pub span: Span,
}

#[derive(Debug, Clone, PartialEq)]
pub struct FlowDef {
    pub name: Option<String>,
    pub target: StateFieldPath,
    pub initial_states: Vec<String>,
    pub terminal_states: Vec<String>,
    pub transitions: Vec<StateTransition>,
    pub span: Span,
}

#[derive(Debug, PartialEq)]
pub struct ConstDef {
    pub name: String,
    pub ty: Type,
    pub value: Expr,
    pub span: Span,
}

#[derive(Debug, PartialEq)]
pub struct EnumVariant {
    pub name: String,
    pub fields: Vec<Type>,
    pub span: Span,
}

#[derive(Debug, PartialEq)]
pub struct EnumDef {
    pub name: String,
    pub type_params: Vec<TypeParam>,
    pub abilities: Vec<ValueAbility>,
    pub variants: Vec<EnumVariant>,
    pub span: Span,
}

/// The CKB cell views an invariant may range over.
#[derive(Debug, Clone, Copy, PartialEq, Eq, Structural)]
pub enum SourceView {
    Input,
    Output,
    CellDep,
    GroupInput,
    GroupOutput,
    SelectedCells,
    TypeIdentity,
}

impl SourceView {
    pub open spec fn spec_from_source_name(name: Seq<char>) -> Option<SourceView> {
        if name == "inputs"@ {
            Some(SourceView::Input)
        } else if name == "outputs"@ {
            Some(SourceView::Output)
        } else if name == "cell_deps"@ {
            Some(SourceView::CellDep)
        } else if name == "group_inputs"@ {
            Some(SourceView::GroupInput)
        } else if name == "group_outputs"@ {
            Some(SourceView::GroupOutput)
        } else if name == "type_id"@ {
            Some(SourceView::TypeIdentity)
        } else {
            None
        }
    }

    /// The source view a root word of an invariant target names.
    pub fn from_source_name(name: &str) -> (r: Option<SourceView>)
        ensures
            r == Self::spec_from_source_name(name@),
    {
        if str_eq(name, "inputs") {
            Some(SourceView::Input)
        } else if str_eq(name, "outputs") {
            Some(SourceView::Output)
        } else if str_eq(name, "cell_deps") {
            Some(SourceView::CellDep)
        } else if str_eq(name, "group_inputs") {
            Some(SourceView::GroupInput)
        } else if str_eq(name, "group_outputs") {
            Some(SourceView::GroupOutput)
        } else if str_eq(name, "type_id") {
            Some(SourceView::TypeIdentity)
        } else {
            None
        }
    }

    pub open spec fn spec_source_name(self) -> Seq<char> {
        match self {
            SourceView::Input => "inputs"@,
            SourceView::Output => "outputs"@,
            SourceView::CellDep => "cell_deps"@,
            SourceView::GroupInput => "group_inputs"@,
            SourceView::GroupOutput => "group_outputs"@,
            SourceView::SelectedCells => "selected_cells"@,
            SourceView::TypeIdentity => "type_id"@,
        }
    }

    /// The word that names this view in source text.
    pub fn source_name(self) -> (s: &'static str)
        ensures
            s@ == self.spec_source_name(),
    {
        match self {
            SourceView::Input => "inputs",
            SourceView::Output => "outputs",
            SourceView::CellDep => "cell_deps",
            SourceView::GroupInput => "group_inputs",
            SourceView::GroupOutput => "group_outputs",
            SourceView::SelectedCells => "selected_cells",
            SourceView::TypeIdentity => "type_id",
        }
    }

    pub open spec fn spec_aggregate_scope(self) -> Option<Seq<char>> {
        match self {
            SourceView::GroupInput | SourceView::GroupOutput => Some("group"@),
            SourceView::Input | SourceView::Output => Some("transaction"@),
            _ => None,
        }
    }

    /// The aggregation scope an explicit input or output view implies.
    pub fn aggregate_scope(self) -> (r: Option<&'static str>)
        ensures
            r is Some <==> self.spec_aggregate_scope() is Some,
            r matches Some(s) ==> Some(s@) == self.spec_aggregate_scope(),
    {
        match self {
            SourceView::GroupInput | SourceView::GroupOutput => Some("group"),
            SourceView::Input | SourceView::Output => Some("transaction"),
            _ => None,
        }
    }
}

/// A finite cell set an invariant reads, optionally narrowed to a type and a field.
#[derive(Debug, Clone, PartialEq)]
pub struct AggregateTarget {
    pub source: SourceView,
    pub cell_type: Option<String>,
    pub field: Option<String>,
}

impl AggregateTarget {
    /// The source rendering of a target: `view<Type>.field`, or `Type.field` for selected cells.
    pub open spec fn spec_render(&self) -> Seq<char> {
        let head = if self.source == SourceView::SelectedCells {
            match self.cell_type {
                Some(t) => t@,
                None => Seq::empty(),
            }
        } else {
            match self.cell_type {
                Some(t) => self.source.spec_source_name() + "<"@ + t@ + ">"@,
                None => self.source.spec_source_name(),
            }
        };
        match self.field {
            Some(f) => head + "."@ + f@,
            None => head,
        }
    }

    /// Renders the target as it is written in source.
    pub fn to_string(&self) -> (s: String)
        ensures
            s@ == self.spec_render(),
    {
        let mut s = String::new();
        if self.source == SourceView::SelectedCells {
            if let Some(t) = &self.cell_type {
                s.append(t.as_str());
            }
        } else {
            s.append(self.source.source_name());
            if let Some(t) = &self.cell_type {
                s.append("<");
                s.append(t.as_str());
                s.append(">");
            }
        }
        if let Some(f) = &self.field {
            s.append(".");
            s.append(f.as_str());
        }
        proof {
            assert forall|x: Seq<char>| (Seq::<char>::empty() + x) =~= x by {}
        }
        s
    }

    /// The cell type and field, when the target names both.
    pub fn type_and_field(&self) -> (r: Option<(&str, &str)>)
        ensures
            r is Some <==> (self.cell_type is Some && self.field is Some),
            r matches Some((t, f)) ==> t@ == self.cell_type->0@ && f@ == self.field->0@,
    {
        match (&self.cell_type, &self.field) {
            (Some(t), Some(f)) => Some((t.as_str(), f.as_str())),
            _ => None,
        }
    }
}

#[derive(Debug, Clone, Copy, PartialEq, Eq, Structural)]
pub enum AggregateRelation {
    Lt,
    Le,
    Eq,
    Ge,
    Gt,
}

#[derive(Debug, Clone, Copy, PartialEq, Eq, Structural)]
pub enum AggregateInvariantKind {
    Sum,
    Conserved,
    Delta,
    Distinct,
    Singleton,
}

#[derive(Debug, Clone, PartialEq)]
pub struct AggregateInvariant {
    pub kind: AggregateInvariantKind,
    pub target: AggregateTarget,
    pub scope: String,
    pub argument: Option<String>,
    pub relation: Option<AggregateRelation>,
    pub rhs: Option<AggregateTarget>,
    pub span: Span,
}

#[derive(Debug, Clone, Copy, PartialEq, Eq, Structural)]
pub enum BoundedQuantifierKind {
    ForAll,
    Count,
}

#[derive(Debug, PartialEq)]
pub struct BoundedQuantifier {
    pub kind: BoundedQuantifierKind,
    pub role: Option<String>,
    pub binding: Option<String>,
    pub range: AggregateTarget,
    pub predicates: Vec<Expr>,
    pub relation: Option<AggregateRelation>,
    pub expected: Option<Expr>,
    pub span: Span,
}

#[derive(Debug, PartialEq)]
pub struct InvariantDef {
    pub name: String,
    pub trigger: Option<String>,
    pub scope: Option<String>,
    pub reads: Vec<AggregateTarget>,
    pub aggregates: Vec<AggregateInvariant>,
    pub quantifiers: Vec<BoundedQuantifier>,
    pub asserts: Vec<Expr>,
    pub span: Span,
}

#[derive(Debug, PartialEq)]
pub enum Type {
    U8,
    U16,
    U32,
    I32,
    U64,
    U128,
    Bool,
    Unit,
    Address,
    Hash,
    Array(Box<Type>, usize),
    Tuple(Vec<Type>),
    Named(String),
    Ref(Box<Type>),
    MutRef(Box<Type>),
}

/// Where an entry parameter's value comes from.
#[derive(Debug, Clone, Copy, PartialEq, Eq, Structural)]
pub enum ParamSource {
    Default,
    Input,
    Output,
    Protected,
    Witness,
    LockArgs,
}

#[derive(Debug, PartialEq)]
pub struct Param {
    pub name: String,
    pub ty: Type,
    pub is_mut: bool,
    pub is_ref: bool,
    pub is_read_ref: bool,
    pub source: ParamSource,
    pub span: Span,
}

#[derive(Debug, PartialEq)]
pub struct ActionOutput {
    pub name: String,
    pub ty: Type,
    pub span: Span,
}

#[derive(Debug, Clone, PartialEq)]
pub struct ActionStateEdge {
    pub path: StateFieldPath,
    pub to_path: StateFieldPath,
    pub from: String,
    pub to: String,
    pub span: Span,
}

#[derive(Debug, PartialEq)]
pub struct ActionDef {
    pub name: String,
    pub params: Vec<Param>,
    pub return_type: Option<Type>,
    pub outputs: Vec<ActionOutput>,
    pub state_edges: Vec<ActionStateEdge>,
    pub body: Vec<Stmt>,
    pub effect: EffectClass,
    pub effect_declared: bool,
    pub scheduler_hint: Option<SchedulerHint>,
    pub doc_comment: Option<String>,
    pub span: Span,
}

#[derive(Debug, PartialEq)]
pub struct FnDef {
    pub name: String,
    pub type_params: Vec<TypeParam>,
    pub params: Vec<Param>,
    pub return_type: Option<Type>,
    pub body: Vec<Stmt>,
    pub effect: EffectClass,
    pub effect_declared: bool,
    pub doc_comment: Option<String>,
    pub span: Span,
}

#[derive(Debug, PartialEq)]
pub struct LockDef {
    pub name: String,
    pub params: Vec<Param>,
    pub return_type: Type,
    pub body: Vec<Stmt>,
    pub span: Span,
}

#[derive(Debug, PartialEq)]
pub enum BindingPattern {
    Wildcard,
    Name(String),
    Tuple(Vec<BindingPattern>),
}

#[derive(Debug, PartialEq)]
pub enum Stmt {
    Let(LetStmt),
    Return(ReturnStmt),
    If(IfStmt),
    For(ForStmt),
    While(WhileStmt),
    Break(LoopControlStmt),
    Continue(LoopControlStmt),
    Borrow(BorrowStmt),
    Expr(Expr),
}

#[derive(Debug, PartialEq)]
pub struct LetStmt {
    pub pattern: BindingPattern,
    pub ty: Option<Type>,
    pub value: Expr,
    pub is_mut: bool,
    pub span: Span,
}

#[derive(Debug, PartialEq)]
pub struct ReturnStmt {
    pub value: Option<Expr>,
    pub span: Span,
}

#[derive(Debug, PartialEq)]
pub struct IfStmt {
    pub condition: Expr,
    pub then_branch: Vec<Stmt>,
    pub else_branch: Option<Vec<Stmt>>,
    pub span: Span,
}

#[derive(Debug, PartialEq)]
pub struct ForStmt {
    pub label: Option<String>,
    pub pattern: BindingPattern,
    pub iterable: Expr,
    pub body: Vec<Stmt>,
    pub span: Span,
}

#[derive(Debug, PartialEq)]
pub struct WhileStmt {
    pub label: Option<String>,
    pub condition: Expr,
    pub body: Vec<Stmt>,
    pub span: Span,
}

#[derive(Debug, Clone, PartialEq)]
pub struct LoopControlStmt {
    pub label: Option<String>,
    pub span: Span,
}

#[derive(Debug, PartialEq)]
pub struct BorrowStmt {
    pub root: String,
    pub path: Vec<String>,
    pub binding: String,
    pub body: Vec<Stmt>,
    pub span: Span,
}

#[derive(Debug, Clone, Copy, PartialEq, Eq, Structural)]
pub enum BinaryOp {
    Add,
    Sub,
    Mul,
    Div,
    Mod,
    Eq,
    Ne,
    Lt,
    Le,
    Gt,
    Ge,
    And,
    Or,
    BitAnd,
    BitOr,
    BitXor,
    Shl,
    Shr,
}

#[derive(Debug, Clone, Copy, PartialEq, Eq, Structural)]
pub enum UnaryOp {
    Neg,
    Not,
    Ref,
    Deref,
}

#[derive(Debug, Clone, Copy, PartialEq, Eq, Structural)]
pub enum AssignOp {
    Assign,
    AddAssign,
}

#[derive(Debug, Clone, PartialEq)]
pub enum DestructionPolicy {
    Default,
    SingletonType,
    Unique { identity: String },
    Instance { identity_field: String },
    BurnAmount { field: String },
}

#[derive(Debug, PartialEq)]
pub struct BinaryExpr {
    pub op: BinaryOp,
    pub left: Box<Expr>,
    pub right: Box<Expr>,
    pub span: Span,
}

#[derive(Debug, PartialEq)]
pub struct UnaryExpr {
    pub op: UnaryOp,
    pub expr: Box<Expr>,
    pub span: Span,
}

#[derive(Debug, PartialEq)]
pub struct CallExpr {
    pub func: Box<Expr>,
    pub type_args: Vec<Type>,
    pub args: Vec<Expr>,
    pub span: Span,
}

#[derive(Debug, PartialEq)]
pub struct FieldAccessExpr {
    pub expr: Box<Expr>,
    pub field: String,
    pub span: Span,
}

#[derive(Debug, PartialEq)]
pub struct IndexExpr {
    pub expr: Box<Expr>,
    pub index: Box<Expr>,
    pub span: Span,
}

#[derive(Debug, PartialEq)]
pub struct CreateExpr {
    pub target: Option<String>,
    pub ty: String,
    pub fields: Vec<(String, Expr)>,
    pub lock: Option<Box<Expr>>,
    pub span: Span,
}

#[derive(Debug, PartialEq)]
pub struct CreateUniqueExpr {
    pub target: Option<String>,
    pub ty: String,
    pub fields: Vec<(String, Expr)>,
    pub lock: Option<Box<Expr>>,
    pub identity: IdentityPolicy,
    pub span: Span,
}

#[derive(Debug, PartialEq)]
pub struct ReplaceUniqueExpr {
    pub expr: Box<Expr>,
    pub ty: String,
    pub fields: Vec<(String, Expr)>,
    pub identity: IdentityPolicy,
    pub span: Span,
}

#[derive(Debug, PartialEq)]
pub struct ConsumeExpr {
    pub expr: Box<Expr>,
    pub span: Span,
}

#[derive(Debug, PartialEq)]
pub struct DestroyExpr {
    pub expr: Box<Expr>,
    pub policy: DestructionPolicy,
    pub span: Span,
}

#[derive(Debug, Clone, PartialEq)]
pub struct ReadRefExpr {
    pub ty: String,
    pub span: Span,
}

#[derive(Debug, PartialEq)]
pub struct ClaimExpr {
    pub receipt: Box<Expr>,
    pub span: Span,
}

/// `transfer value to recipient`: hands a cell to a new owner.
#[derive(Debug, PartialEq)]
pub struct TransferExpr {
    pub expr: Box<Expr>,
    pub to: Box<Expr>,
    pub span: Span,
}

#[derive(Debug, PartialEq)]
pub struct SettleExpr {
    pub expr: Box<Expr>,
    pub span: Span,
}

#[derive(Debug, PartialEq)]
pub struct AssertExpr {
    pub condition: Box<Expr>,
    pub message: Box<Expr>,
    pub span: Span,
}

#[derive(Debug, PartialEq)]
pub struct RequireExpr {
    pub condition: Box<Expr>,
    pub message: Option<Box<Expr>>,
    pub span: Span,
}

#[derive(Debug, PartialEq)]
pub struct RequireBlockExpr {
    pub expressions: Vec<Expr>,
    pub span: Span,
}

#[derive(Debug, Clone, PartialEq)]
pub struct PreserveExpr {
    pub output_name: String,
    pub input_name: String,
    pub fields: Vec<String>,
    pub span: Span,
}

#[derive(Debug, PartialEq)]
pub struct StdlibCallExpr {
    pub namespace: String,
    pub name: String,
    pub args: Vec<Expr>,
    pub preserve_fields: Vec<String>,
    pub span: Span,
}

#[derive(Debug, PartialEq)]
pub struct IfExpr {
    pub condition: Box<Expr>,
    pub then_branch: Box<Expr>,
    pub else_branch: Box<Expr>,
    pub span: Span,
}

#[derive(Debug, PartialEq)]
pub struct CastExpr {
    pub expr: Box<Expr>,
    pub ty: Type,
    pub span: Span,
}

#[derive(Debug, PartialEq)]
pub struct RangeExpr {
    pub start: Box<Expr>,
    pub end: Box<Expr>,
    pub span: Span,
}

#[derive(Debug, PartialEq)]
pub struct StructInitExpr {
    pub ty: String,
    pub fields: Vec<(String, Expr)>,
    pub span: Span,
}

#[derive(Debug, PartialEq)]
pub enum MatchPattern {
    Wildcard,
    Binding(String),
    Tuple(Vec<MatchPattern>),
    Struct { path: String, fields: Vec<(String, MatchPattern)> },
    Variant { path: String, fields: Vec<MatchPattern> },
    Or(Vec<MatchPattern>),
}

#[derive(Debug, PartialEq)]
pub struct MatchArm {
    pub pattern: MatchPattern,
    pub value: Expr,
    pub span: Span,
}

#[derive(Debug, PartialEq)]
pub struct MatchExpr {
    pub expr: Box<Expr>,
    pub arms: Vec<MatchArm>,
    pub span: Span,
}

#[derive(Debug, PartialEq)]
pub struct AssignExpr {
    pub target: Box<Expr>,
    pub op: AssignOp,
    pub value: Box<Expr>,
    pub span: Span,
}

#[derive(Debug, PartialEq)]
pub enum ReplaceFieldTreatment {
    Same(String),
    Assign(String, Expr),
}

#[derive(Debug, PartialEq)]
pub enum ReplaceDataTreatment {
    SameExcept(Vec<(String, Expr)>),
    Fields(Vec<ReplaceFieldTreatment>),
}

#[derive(Debug, PartialEq)]
pub enum ReplaceLockTreatment {
    Same,
    Exact(Box<Expr>),
    ExactHash(Box<Expr>),
}

#[derive(Debug, Clone, Copy, PartialEq, Eq, Structural)]
pub enum ReplaceCapacityTreatment {
    Same,
}

#[derive(Debug, Clone, Copy, PartialEq, Eq, Structural)]
pub enum ReplaceIdentityTreatment {
    Same,
}

#[derive(Debug, PartialEq)]
pub struct ReplaceRelation {
    pub before: String,
    pub after: String,
    pub data: ReplaceDataTreatment,
    pub lock: ReplaceLockTreatment,
    pub capacity: ReplaceCapacityTreatment,
    pub identity: ReplaceIdentityTreatment,
    pub span: Span,
}

#[derive(Debug, PartialEq)]
pub enum Expr {
    Integer(u128),
    Bool(bool),
    String(String),
    ByteString(Vec<u8>),
    Identifier(String),
    Binary(BinaryExpr),
    Unary(UnaryExpr),
    Call(CallExpr),
    FieldAccess(FieldAccessExpr),
    Index(IndexExpr),
    Create(CreateExpr),
    CreateUnique(CreateUniqueExpr),
    ReplaceUnique(ReplaceUniqueExpr),
    Consume(ConsumeExpr),
    Transfer(TransferExpr),
    Destroy(DestroyExpr),
    ReadRef(ReadRefExpr),
    Claim(ClaimExpr),
    Settle(SettleExpr),
    Assert(AssertExpr),
    Require(RequireExpr),
    RequireBlock(RequireBlockExpr),
    Preserve(PreserveExpr),
    StdlibCall(StdlibCallExpr),
    Block(Vec<Stmt>),
    Tuple(Vec<Expr>),
    Array(Vec<Expr>),
    If(IfExpr),
    Cast(CastExpr),
    Range(RangeExpr),
    StructInit(StructInitExpr),
    Match(MatchExpr),
    Assign(AssignExpr),
    ReplaceRelation(ReplaceRelation),
}

impl Expr {
    /// Where an expression stands; literals, names, blocks, tuples and arrays record no place.
    pub open spec fn spec_span(&self) -> Span {
        match self {
            Expr::Binary(e) => e.span,
            Expr::Unary(e) => e.span,
            Expr::Call(e) => e.span,
            Expr::FieldAccess(e) => e.span,
            Expr::Index(e) => e.span,
            Expr::Create(e) => e.span,
            Expr::CreateUnique(e) => e.span,
            Expr::ReplaceUnique(e) => e.span,
            Expr::Consume(e) => e.span,
            Expr::Transfer(e) => e.span,
            Expr::Destroy(e) => e.span,
            Expr::ReadRef(e) => e.span,
            Expr::Claim(e) => e.span,
            Expr::Settle(e) => e.span,
            Expr::Assert(e) => e.span,
            Expr::Require(e) => e.span,
            Expr::RequireBlock(e) => e.span,
            Expr::Preserve(e) => e.span,
            Expr::StdlibCall(e) => e.span,
            Expr::If(e) => e.span,
            Expr::Cast(e) => e.span,
            Expr::Range(e) => e.span,
            Expr::StructInit(e) => e.span,
            Expr::Match(e) => e.span,
            Expr::Assign(e) => e.span,
            Expr::ReplaceRelation(e) => e.span,
            _ => Span::default_spec(),
        }
    }

    pub fn span(&self) -> (s: Span)
        ensures
            s == self.spec_span(),
    {
        match self {
            Expr::Binary(e) => e.span,
            Expr::Unary(e) => e.span,
            Expr::Call(e) => e.span,
            Expr::FieldAccess(e) => e.span,
            Expr::Index(e) => e.span,
            Expr::Create(e) => e.span,
            Expr::CreateUnique(e) => e.span,
            Expr::ReplaceUnique(e) => e.span,
            Expr::Consume(e) => e.span,
            Expr::Transfer(e) => e.span,
            Expr::Destroy(e) => e.span,
            Expr::ReadRef(e) => e.span,
            Expr::Claim(e) => e.span,
            Expr::Settle(e) => e.span,
            Expr::Assert(e) => e.span,
            Expr::Require(e) => e.span,
            Expr::RequireBlock(e) => e.span,
            Expr::Preserve(e) => e.span,
            Expr::StdlibCall(e) => e.span,
            Expr::If(e) => e.span,
            Expr::Cast(e) => e.span,
            Expr::Range(e) => e.span,
            Expr::StructInit(e) => e.span,
            Expr::Match(e) => e.span,
            Expr::Assign(e) => e.span,
            Expr::ReplaceRelation(e) => e.span,
            _ => Span::empty(),
        }
    }
}

} // verus!
