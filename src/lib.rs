use vstd::prelude::*;

pub mod config;
pub mod error;
pub mod info;
pub mod input;
pub mod pipeline;
pub mod response;
pub mod tokenizer;

verus! {

/// The value a request's `normalize` flag takes when the client leaves it out.
pub fn default_normalize() -> (r: bool)
    ensures
        r,
{
    true
}

} // verus!
