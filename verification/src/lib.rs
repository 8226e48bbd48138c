//! Verified token-level parsing of T-SQL object definitions.
//!
//! SQL text is split into tokens by the `sqlparser` tokenizer (MS SQL dialect);
//! every step after that is verified against spec functions over the token
//! sequence.

pub mod text;
pub mod patterns;
pub mod lexer;
pub mod cursor;
pub mod token_parser_base;
pub mod sequence_parser;
pub mod identifier_utils;
pub mod procedure_parser;
pub mod index_parser;
pub mod security_parser;
pub mod statement_parser;
pub mod storage_parser;
pub mod synonym_parser;
pub mod trigger_parser;
pub mod function_parser;
pub mod column_parser;
pub mod constraint_parser;
pub mod extended_property_parser;
pub mod fulltext_parser;
pub mod preprocess_parser;
pub mod batches;
pub mod laws;
pub mod sqlcmd;
pub mod table_type_parser;
pub mod fallback;
pub mod security_dispatch;
pub mod scalar_type;
pub mod table_fallback;
pub mod index_fallback;
pub mod fallback_dispatch;
pub mod statement_laws;
pub mod reader_laws;
