//! Number formatting driven by a compact format specifier, and the cell and
//! column format choices of a tabular display that rest on it.

pub mod cell_format;
pub mod column;
pub mod dtype;
pub mod error;
pub mod formats;
pub mod grouping;
pub mod magnitude;
pub mod radix;
pub mod render;
pub mod si;
pub mod specifier;
pub mod text;
