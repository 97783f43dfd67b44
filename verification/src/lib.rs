use vstd::prelude::*;

pub mod canonical;
pub mod checker;
pub mod jser;
pub mod jsonval;
pub mod codec;
pub mod convert;
pub mod document;
pub mod model;
pub mod numstr;
pub mod outbound;
pub mod payload;
pub mod selectors;
pub mod ss;
pub mod storagemodel;
pub mod strutil;
pub mod supervisor;
pub mod trojan;
pub mod urlparts;
pub mod vless;

verus! {

pub use crate::numstr::u64_to_string;

} // verus!
