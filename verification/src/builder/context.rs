use vstd::prelude::*;
verus! {
#[derive(Debug, Copy, Clone, Default)]
pub struct NoContext;
}
