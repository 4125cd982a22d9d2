//! Width-aware printing of structural types as source text.
//!
//! A type is written as text that reads back as the same type. The caller
//! gives a budget of width; a union or a tuple that does not fit on the
//! current line is written with an item a line, and where that does not fit
//! either, nothing is written and the caller is told so.
//!
//! - [`types`] holds the type model and [`opt`] the budget.
//! - [`source`] says what the text of a type within a budget is, and
//!   [`write`] writes it.
//! - [`text`] and [`layout`] are the texts and the two layouts of a list that
//!   both of them are made of.
//! - [`totality`], [`failure`], [`agreement`], [`fitting`] and [`widening`]
//!   prove what holds of every type and budget, with [`blanks`], [`parts`]
//!   and [`widths`] for the texts.

pub mod agreement;
pub mod blanks;
pub mod failure;
pub mod fitting;
pub mod layout;
pub mod opt;
pub mod parts;
pub mod source;
pub mod text;
pub mod totality;
pub mod types;
pub mod widening;
pub mod widths;
pub mod write;
