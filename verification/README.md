# hackc_compile

The decisions of the Hack compiler's driver, verified with Verus.

- `src/flags.rs`, `src/option_flags.rs`: the flag sets that the runtime hands to the
  compiler (environment, bytecode and parser flags) and the option sets derived from them;
  `src/flag_laws.rs` proves how the conversions behave.
- `src/parse_outcome.rs`: which error a parse reports, and the parser settings.
- `src/parser_options.rs`: the parser switches that follow the language options.
- `src/compile_env.rs`: the compilation input and the settings that follow from it.
- `src/expr_tree.rs`: sorting expression tree literals and splicing their desugared text
  into the source.
- `src/profile.rs`: the integer counters of a compilation profile.
- `src/subst.rs`: substitutions of types for type parameters, over an insertion-ordered map.
- `src/prim_defs.rs`: comments of the source text.

`app/` holds the calls into the parser, rewriter, emitter and printer, which the library
does not hold, and the profile's times in seconds.
