//! A small library behind a command-line image resizer.
//!
//! The library owns everything that can be checked: the argument grammar,
//! decimal parsing and formatting, the dimensions and color tag of a decoded
//! image, and the contract of the resample step.  Decoding a file, saving the
//! result and printing are left to the thin binary around it.

pub mod command;
pub mod errors;
pub mod numerals;
pub mod picture;
pub mod report;
