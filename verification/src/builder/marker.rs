use vstd::prelude::*;
verus! {
#[derive(Default, Copy, Clone, Debug)]
pub struct NonAsync;
#[derive(Default, Copy, Clone, Debug)]
pub struct Async;
}
