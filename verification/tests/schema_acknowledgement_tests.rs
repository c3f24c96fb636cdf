use cellscript::ast::{Expr, Module, ReplaceRelation};
use cellscript::error::CompileError;
use cellscript::lexer::lex;
use cellscript::parser::{parse_with_entry_grammar, EntryBodyGrammar};
use cellscript::schema_acknowledgement::{
    acknowledge_schema_change, build_schema_change_plan, validate_plan, verify_schema_acknowledgement, SchemaAcknowledgementReceipt,
    SchemaChangePlan, SchemaCompilation, SchemaFieldPolicy, SchemaRelationSelector, TypedSemanticField, TypedSemanticType,
    SCHEMA_ACKNOWLEDGEMENT_SCHEMA, SCHEMA_CHANGE_PLAN_SCHEMA,
};

fn ckb_hash(bytes: &[u8]) -> String {
    let mut digest = [0u8; 32];
    let mut hasher = blake2b_ref::Blake2bBuilder::new(32).personal(b"ckb-default-hash").build();
    hasher.update(bytes);
    hasher.finalize(&mut digest);
    hex::encode(digest)
}

fn schema_hash(schema: &TypedSemanticType) -> Result<String, CompileError> {
    Ok(ckb_hash(format!("{schema:?}").as_bytes()))
}

fn relation_hash(relation: &ReplaceRelation, fields: &Vec<(String, SchemaFieldPolicy)>) -> Result<String, CompileError> {
    Ok(ckb_hash(format!("{}|{}|{:?}|{fields:?}", relation.before, relation.after, relation.lock).as_bytes()))
}

fn plan_hash(plan: &SchemaChangePlan) -> Result<String, CompileError> {
    let mut payload = plan.clone();
    payload.plan_hash = String::new();
    Ok(ckb_hash(format!("{payload:?}").as_bytes()))
}

fn acknowledgement_hash(receipt: &SchemaAcknowledgementReceipt) -> Result<String, CompileError> {
    let mut payload = receipt.clone();
    payload.acknowledgement_hash = String::new();
    Ok(ckb_hash(format!("{payload:?}").as_bytes()))
}

fn format_expression(expr: &Expr) -> String {
    match expr {
        Expr::Integer(value) => value.to_string(),
        Expr::Identifier(name) => name.clone(),
        other => format!("{other:?}"),
    }
}

fn parse(source: &str) -> Module {
    let tokens = lex(source).expect("lex");
    parse_with_entry_grammar(&tokens, EntryBodyGrammar::ConstraintBlock).expect("parse")
}

fn field(name: &str, ty: &str, offset: u32) -> TypedSemanticField {
    TypedSemanticField { name: name.to_string(), ty: ty.to_string(), offset, width_bytes: Some(8) }
}

fn compilation(source: &str, fields: Vec<TypedSemanticField>) -> SchemaCompilation {
    SchemaCompilation {
        module: "vault".to_string(),
        interface_hash: ckb_hash(source.as_bytes()),
        ast: parse(source),
        types: vec![TypedSemanticType {
            name: "Vault".to_string(),
            kind: "resource".to_string(),
            encoded_size: Some(8 * fields.len() as u32),
            fields,
        }],
    }
}

fn source(data: &str) -> String {
    format!(
        "module vault\n\nresource Vault has store {{\n    amount: u64,\n}}\n\naction upgrade(old_vault: Vault) -> (new_vault: Vault) {{\n    replace old_vault -> new_vault {{\n        data = same except {{ {data} }}\n        lock = same\n        capacity = same\n        identity = same\n    }}\n}}\n"
    )
}

fn selector() -> SchemaRelationSelector {
    SchemaRelationSelector { action: "upgrade".to_string(), before: "old_vault".to_string(), after: "new_vault".to_string() }
}

fn plan(old: &SchemaCompilation, new: &SchemaCompilation) -> Result<SchemaChangePlan, CompileError> {
    build_schema_change_plan(old, new, selector(), schema_hash, relation_hash, plan_hash, format_expression)
}

#[test]
fn implicitly_preserved_new_field_blocks_acknowledgement() {
    let old = compilation(&source("amount = 1"), vec![field("amount", "u64", 0)]);
    let new = compilation(&source("amount = 1"), vec![field("amount", "u64", 0), field("bonus", "u64", 8)]);
    let plan = plan(&old, &new).unwrap();
    assert_eq!(plan.schema, SCHEMA_CHANGE_PLAN_SCHEMA);
    assert_eq!(plan.resource_type, "Vault");
    assert!(plan.requires_acknowledgement);
    assert!(plan.state_migration_required);
    assert_eq!(plan.field_changes.len(), 1);
    assert_eq!(plan.field_changes[0].field, "bonus");
    assert_eq!(plan.field_changes[0].classification, "added");
    assert_eq!(plan.field_changes[0].new_policy, Some(SchemaFieldPolicy { treatment: "preserve".to_string(), expression: None }));
    assert_eq!(plan.blockers.len(), 1);
    assert_eq!(plan.blockers[0].code, "SACK1001");
    assert_eq!(
        plan.blockers[0].message,
        "new field 'bonus' is implicitly preserved by `same except`; assign it explicitly before acknowledging the schema change"
    );
    assert!(validate_plan(&plan, plan_hash).is_ok());
    assert_eq!(
        acknowledge_schema_change(&plan, "alice", "reviewed", plan_hash, acknowledgement_hash).unwrap_err().message,
        "schema-change plan has blocking field treatments: SACK1001 bonus"
    );
}

#[test]
fn explicit_assignment_is_acknowledged_and_verified() {
    let old = compilation(&source("amount = 1"), vec![field("amount", "u64", 0)]);
    let new = compilation(&source("amount = 1\n bonus = 7"), vec![field("amount", "u64", 0), field("bonus", "u64", 8)]);
    let plan = plan(&old, &new).unwrap();
    assert!(plan.blockers.is_empty());
    assert_eq!(plan.field_changes[0].classification, "added");
    assert_eq!(
        plan.field_changes[0].new_policy,
        Some(SchemaFieldPolicy { treatment: "assign".to_string(), expression: Some("7".to_string()) })
    );
    let receipt = acknowledge_schema_change(&plan, "  alice  ", " widened vault ", plan_hash, acknowledgement_hash).unwrap();
    assert_eq!(receipt.schema, SCHEMA_ACKNOWLEDGEMENT_SCHEMA);
    assert_eq!(receipt.reviewer, "alice");
    assert_eq!(receipt.rationale, "widened vault");
    assert_eq!(receipt.plan_hash, plan.plan_hash);
    verify_schema_acknowledgement(&plan, &receipt, plan_hash, acknowledgement_hash).unwrap();

    let mut forged = receipt.clone();
    forged.rationale = "other".to_string();
    assert_eq!(
        verify_schema_acknowledgement(&plan, &forged, plan_hash, acknowledgement_hash).unwrap_err().message,
        "schema acknowledgement hash does not match its contents"
    );
    let mut stale = receipt.clone();
    stale.module = "other".to_string();
    stale.acknowledgement_hash = acknowledgement_hash(&stale).unwrap();
    assert_eq!(
        verify_schema_acknowledgement(&plan, &stale, plan_hash, acknowledgement_hash).unwrap_err().message,
        "schema acknowledgement is stale or belongs to a different schema/relation change"
    );
    assert_eq!(
        acknowledge_schema_change(&plan, " ", "why", plan_hash, acknowledgement_hash).unwrap_err().message,
        "schema acknowledgement requires a non-empty signer and rationale"
    );
}

#[test]
fn unchanged_schema_needs_no_acknowledgement() {
    let old = compilation(&source("amount = 1"), vec![field("amount", "u64", 0)]);
    let new = compilation(&source("amount = 2"), vec![field("amount", "u64", 0)]);
    let plan = plan(&old, &new).unwrap();
    assert!(!plan.requires_acknowledgement);
    assert_eq!(plan.field_changes.len(), 1);
    assert_eq!(plan.field_changes[0].classification, "policy-changed");
    assert_eq!(
        acknowledge_schema_change(&plan, "alice", "why", plan_hash, acknowledgement_hash).unwrap_err().message,
        "schema-change plan does not require an acknowledgement"
    );
}

#[test]
fn tampered_plans_fail_validation() {
    let old = compilation(&source("amount = 1"), vec![field("amount", "u64", 0)]);
    let new = compilation(&source("amount = 1"), vec![field("amount", "u32", 0)]);
    let plan = plan(&old, &new).unwrap();
    assert_eq!(plan.field_changes[0].classification, "type-changed");
    let mut tampered = plan.clone();
    tampered.module = "other".to_string();
    assert_eq!(validate_plan(&tampered, plan_hash).unwrap_err().message, "schema-change plan hash does not match its contents");
    let mut flags = plan.clone();
    flags.state_migration_required = !flags.state_migration_required;
    assert_eq!(validate_plan(&flags, plan_hash).unwrap_err().message, "schema-change plan flags do not match the bound schema identities");
    let mut empty = plan.clone();
    empty.resource_type = String::new();
    assert_eq!(validate_plan(&empty, plan_hash).unwrap_err().message, "schema-change plan contains an empty identity field");
    let mut version = plan.clone();
    version.version = 2;
    assert_eq!(validate_plan(&version, plan_hash).unwrap_err().message, "unsupported schema-change plan schema/version");
}

#[test]
fn planning_rejects_mismatched_inputs() {
    let old = compilation(&source("amount = 1"), vec![field("amount", "u64", 0)]);
    let mut other = compilation(&source("amount = 1"), vec![field("amount", "u64", 0)]);
    other.module = "other".to_string();
    assert_eq!(
        plan(&old, &other).unwrap_err().message,
        "schema acknowledgement compares one module identity; old 'vault' differs from new 'other'"
    );
    let missing = SchemaRelationSelector { action: "withdraw".to_string(), ..selector() };
    assert_eq!(
        build_schema_change_plan(&old, &old, missing, schema_hash, relation_hash, plan_hash, format_expression).unwrap_err().message,
        "old module has no action 'withdraw'"
    );
    let wrong = SchemaRelationSelector { before: "new_vault".to_string(), ..selector() };
    assert_eq!(
        build_schema_change_plan(&old, &old, wrong, schema_hash, relation_hash, plan_hash, format_expression).unwrap_err().message,
        "old action 'upgrade' has no `replace new_vault -> new_vault` relation"
    );
    let mut no_schema = compilation(&source("amount = 1"), vec![field("amount", "u64", 0)]);
    no_schema.types[0].kind = "struct".to_string();
    assert_eq!(plan(&old, &no_schema).unwrap_err().message, "new metadata has no concrete resource schema 'Vault'");
}
