//! Renders a JavaScript syntax tree back into source text that parses to an
//! equivalent tree.
pub mod ast;
pub mod comment;
pub mod laws;
pub mod print_expr;
pub mod print_fn;
pub mod print_stmt;
pub mod quote;
pub mod render;
pub mod seqs;
pub mod wf;
pub mod writer;
