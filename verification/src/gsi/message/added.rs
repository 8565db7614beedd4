//! The `added` section of a message: what appeared since the previous one.
use vstd::prelude::*;

verus! {

/// What appeared in the round section.
#[derive(Clone)]
pub struct Round {
    pub bomb: Option<bool>,
}

impl Default for Round {
    fn default() -> (r: Round)
        ensures
            r.bomb is None,
    {
        Round { bomb: None }
    }
}

/// What appeared since the previous message.
#[derive(Clone)]
pub struct Message {
    pub round: Option<Round>,
}

impl Default for Message {
    fn default() -> (m: Message)
        ensures
            m.round is None,
    {
        Message { round: None }
    }
}

} // verus!
