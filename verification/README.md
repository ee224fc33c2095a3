# libjuno

The front end of the Juno compiler, verified with Verus.

- `src/ast.rs`: the syntax tree of a Juno source file.
- `src/parser/`: the AST builder. The grammar's parser hands it a concrete
  syntax tree (`tree::Node`: rule, text, byte range, children); the
  builder turns it into the syntax tree. `*_spec.rs` say, over views of the
  trees, what each building step gives; `*_parser.rs` implement them;
  `text.rs` holds trimming, escapes and integer literals; `laws.rs` states
  properties across calls.
- `src/metair/`: the lowering of a program into the meta IR.
  `semantics.rs` says what each lowering step gives; the other files
  implement them; `laws.rs` states properties of interning, scopes,
  coercion and lowering.
- `src/symbol_map.rs`: the name-keyed map the generator and the IR use.
- `app/`: glue that turns a pest parse tree into the builder's tree and the
  library's errors into miette reports.
