use vstd::prelude::*;

pub mod ast;
pub mod bin_codec;
pub mod claims_error;
pub mod authn_domain;
pub mod authn_resolver;
pub mod authz_resolver;
pub mod credstore;
pub mod credstore_domain;
pub mod filter;
pub mod handler_span;
pub mod http_error;
pub mod odata_lexer;
pub mod odata_print;
pub mod odata_text;
pub mod odata_words;
pub mod problem;
pub mod seq_facts;
pub mod migration_run;
pub mod migration_runner;
pub mod mini_chat_error;
pub mod node_info;
pub mod nodes_domain;
pub mod nodes_registry;
pub mod odata_filters;
pub mod tenant_domain;
pub mod tenant_resolver;
pub mod text;
pub mod tx_error;
pub mod types_registry;
pub mod user_settings_error;
pub mod trace_id;

verus! {
}
