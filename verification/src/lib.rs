//! Colors for the interleaved log lines of a parallel test runner.
//!
//! Every line carries tags (job slot, fixture node, process port, test name).
//! A tree of patterns and colors is walked against the line, and the color of
//! the deepest branch that the line reaches is the color of the line.
//!
//! - `color`, `palette`: the colors, and the three tables of hand-picked ones.
//! - `catalog`: the tree as it is authored, with patterns as text, and its
//!   compilation.
//! - `resmoke`: the catalog of the runner's tags.
//! - `tree`, `resolver`: the compiled tree, and the walk that gives a line
//!   its color.
//! - `lines`: the prefix and the content of a line, and the lines that report
//!   a successful run.
//! - `matcher`: the calls into the `regex` crate, which are taken on trust.
//! - `text`: cutting a text at the byte positions that a match reports.

pub mod catalog;
pub mod color;
pub mod lines;
pub mod matcher;
pub mod palette;
pub mod resmoke;
pub mod resolver;
pub mod text;
pub mod tree;
