use vstd::prelude::*;

pub mod action_builder;
pub mod actions;
pub mod config;
pub mod decode;
pub mod handlers;
pub mod json;
pub mod message;
pub mod process_loop;
pub mod text;
pub mod time;

verus! {

/// The text served on the `/test` route.
pub fn test() -> (r: &'static str)
    ensures
        r@ == "HELLO"@,
{
    "HELLO"
}

} // verus!
