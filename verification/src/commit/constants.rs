use vstd::prelude::*;

verus! {

/// Maximum number of characters that the rendered commit header —
/// `type(scope)!: subject` — may occupy.
pub const MAX_MESSAGE_LEN: usize = 72;

} // verus!
