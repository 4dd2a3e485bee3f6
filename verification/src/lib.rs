//! Desugaring of `#[async]` functions, `#[async] for` loops and `await!`
//! into generator-based polling code, as transforms over a compact syntax
//! model.
//!
//! A front end turns parsed source into the model of [`ty`], [`expr`] and
//! [`sig`], keeping in tables of its own whatever the transforms never look
//! into; the model refers to such syntax by integer handles, and to source
//! positions by [`span::Span`].  The transforms rewrite the model, and the
//! front end prints the result.
//!
//! - [`macros`]: the macros, from parsed input to what replaces it.
//! - [`async_macro`], [`capture`], [`ret_ty`], [`type_ann`]: the rewrite of
//!   a function into one that returns a future or a stream at once.
//! - [`for_loop`] and [`await_macro`]: the expansion of the two kinds of
//!   suspension point into poll loops; [`marked`] holds what the first
//!   guarantees about marked loops.
//! - [`make`], [`paths`], [`util`]: how synthesized syntax is built and
//!   stamped with positions.
//! - [`rt`] and [`poll_loop`]: what emitted code relies on at run time, and
//!   what the emitted loops decide after each poll.
//! - [`meaning`]: a small semantics of the emitted poll code, under which it
//!   is proved to decide as [`poll_loop`] says.
//!
//! Every exported function states what it returns over the models, and the
//! proof functions named `lemma_…` state what holds of several of them
//! together.
pub mod span;
pub mod ty;
pub mod expr;
pub mod sig;
pub mod make;
pub mod util;
pub mod paths;
pub mod await_macro;
pub mod for_loop;
pub mod marked;
pub mod async_macro;
pub mod capture;
pub mod type_ann;
pub mod ret_ty;
pub mod macros;
pub mod rt;
pub mod poll_loop;
pub mod meaning;
