//! Locates marker comments ("TODO"-style annotations) across a source
//! tree, extracts them into structured records, and drives an
//! interactive terminal browser over them: a small state machine of
//! screens, rendered by a pagination printer and stepped one keypress at
//! a time by a dialog loop. The extraction grammar, the source catalog,
//! the filter engine, the config document codec, the screens and the
//! dialog step are verified; file and terminal I/O stay outside, in the
//! binary around the library.

pub mod config;
pub mod dialog;
pub mod error;
pub mod filter;
pub mod printer;
pub mod project;
pub mod scan;
pub mod screen;
pub mod sourcefile;
pub mod todo;
