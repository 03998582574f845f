//! The coarse two-state view of an agent: thinking or trying to eat.

use vstd::prelude::*;

verus! {

/// What an agent is doing, as far as the outside world can tell. An agent is
/// `Thinking` while it rests between meals and `Eating` from the moment it gets
/// hungry until it either finishes its meal or gives its attempt up.
#[derive(Clone, Copy, Debug, PartialEq, Eq, Structural)]
pub enum Activity {
    Thinking,
    Eating,
}

impl Default for Activity {
    /// A freshly created agent is thinking.
    fn default() -> (a: Activity)
        ensures
            a == Activity::Thinking,
    {
        Activity::Thinking
    }
}

} // verus!
