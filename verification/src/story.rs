//! A whole run of a state machine: what it asked for, and how it ended.

use vstd::prelude::*;

verus! {

/// What a run asked for, in order, and how it ended.
#[verifier::ext_equal]
pub struct Story<A, R> {
    pub asked: Seq<A>,
    pub outcome: R,
}

impl<A, R> Story<A, R> {
    /// A run that asks for nothing.
    pub open spec fn end(outcome: R) -> Story<A, R> {
        Story { asked: Seq::empty(), outcome }
    }

    /// The run that asks for `action` and then goes on like this one.
    pub open spec fn after(self, action: A) -> Story<A, R> {
        Story { asked: seq![action] + self.asked, outcome: self.outcome }
    }

    /// The run that asks for all of `actions` and then goes on like this one.
    pub open spec fn after_all(self, actions: Seq<A>) -> Story<A, R> {
        Story { asked: actions + self.asked, outcome: self.outcome }
    }
}

} // verus!
