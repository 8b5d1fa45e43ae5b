//! A small verified text library built around one idea: a read-only view
//! (offset + length) into a mutable byte buffer stays honest only while the
//! buffer is unchanged.  The `tokenizer` module enforces that with a version
//! stamp on the buffer; the remaining modules are small verified utilities
//! over strings, rectangles, coins and options.

pub mod coins;
pub mod dice;
pub mod guessing;
pub mod messages;
pub mod numbers;
pub mod options;
pub mod ownership;
pub mod rectangles;
pub mod references;
pub mod tokenizer;
pub mod users;
pub mod words;
