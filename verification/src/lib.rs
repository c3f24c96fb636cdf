pub mod ast;
pub mod ckb_abi;
pub mod ckb_hash;
pub mod error;
pub mod ir;
pub mod lexer;
pub mod parser;
pub mod proof_plan;
pub mod protocol_bundle;
pub mod repl;
pub mod runtime_errors;
pub mod schema_acknowledgement;
pub mod script_handle;
pub mod script_handle_contract;
pub mod simulate;
pub mod stdlib;
pub mod test;
pub mod text;
