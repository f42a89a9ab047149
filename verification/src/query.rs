//! The agent's error type: a failure carries a list of human-readable
//! excuses, newest last.

use vstd::prelude::*;

verus! {

/// An error value: one or more messages describing what went wrong.
pub struct Failure {
    pub excuses: Vec<String>,
}

impl Failure {
    pub fn new(msg: &str) -> (r: Failure)
        ensures
            r.excuses@.len() == 1,
            r.excuses@[0]@ == msg@,
    {
        let mut excuses: Vec<String> = Vec::new();
        excuses.push(msg.to_owned());
        Failure { excuses }
    }

    pub fn push(self, msg: &str) -> (r: Failure)
        ensures
            r.excuses@.len() == self.excuses@.len() + 1,
            r.excuses@.last()@ == msg@,
            forall|i: int| 0 <= i < self.excuses@.len() ==> r.excuses@[i] == self.excuses@[i],
    {
        let mut excuses = self.excuses;
        excuses.push(msg.to_owned());
        Failure { excuses }
    }
}

/// Shorthand constructor, used wherever an operation gives up.
pub fn fail(msg: &str) -> (r: Failure)
    ensures
        r.excuses@.len() == 1,
        r.excuses@[0]@ == msg@,
{
    Failure::new(msg)
}

} // verus!
