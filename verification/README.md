# sqlpackage_parser

Verified token-level parsing of T-SQL object definitions (tables, table types,
alias types, procedures, functions, triggers, indexes, sequences, synonyms,
full-text objects, storage objects, security statements, extended properties),
batch splitting and SQLCMD include planning, written in Verus.

SQL text is split into tokens by the `sqlparser` tokenizer (MS SQL dialect);
every step after that is an executable function proved equal to a spec
function over the token models.

Layout:

- `src/` — the verified library, one module per statement family; `text`,
  `lexer`, `cursor` and `token_parser_base` hold the shared text and token
  steps, `patterns` the regular-expression calls, `fallback_dispatch` the
  choice of reader for a statement that `sqlparser` does not take, `laws` and
  `statement_laws` the properties proved across functions.
- `tests/` — tests run against the compiled library.
- `app/` — the file-system side (reading files with an encoding fallback,
  expanding `:r` includes, parsing a file batch by batch with `sqlparser` and
  the fallback readers) and the `sqlparser` dialect.
