# custom_datasource

A custom filter operator, three physical expressions (column references,
literals, ordering comparisons) and a table of random rows, in the shape of
DataFusion extensions, with their logic verified by Verus.

- `src/` is the verified library. Values of booleans, integers of every
  width, dates, strings and byte strings (in their plain, large and view layouts) are held
  as plain Rust values (`values.rs`, `schema.rs`); arrays of other types
  (floating point, timestamps, decimals, dictionaries, ...) are kept as their
  type and length. `expr.rs` evaluates expression trees, `kernels.rs`
  builds Arrow arrays and calls Arrow's comparison kernels on them,
  `filter.rs` selects the rows that a predicate keeps and checks the result
  against the stream's schema, `random_table.rs` plans
  scans and paces the random stream.
- `app/` implements DataFusion's `PhysicalExpr`, `ExecutionPlan`,
  `TableProvider` and stream traits on top of the library, converting Arrow
  arrays to and from the library's values.
- `tests/` exercises the library on concrete values.
