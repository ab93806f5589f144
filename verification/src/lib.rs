//! The decisions of the Hack compiler's driver: the flag sets that the runtime hands over
//! and the options they select, which error a parse reports, how expression tree literals
//! are spliced into the source text, the counters of a compilation profile, and the
//! substitution of types for type parameters.

pub mod bit_lemmas;
pub mod compile_env;
pub mod expr_tree;
pub mod flag_laws;
pub mod flags;
pub mod option_flags;
pub mod parse_outcome;
pub mod parser_options;
pub mod prim_defs;
pub mod profile;
pub mod subst;
