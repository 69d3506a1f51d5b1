//! A run that is set up now and carried out later.

use vstd::prelude::*;

verus! {

/// A task to be run once. What it does is up to the closure it holds.
pub struct Script<F>(pub F);

impl<F> Script<F> {
    /// Wraps a task.
    pub fn new(task: F) -> (script: Self)
        ensures
            script.0 == task,
    {
        Script(task)
    }

    /// Runs the task and hands back what it returns.
    pub fn run<E>(self) -> (res: Result<(), E>) where F: FnOnce() -> Result<(), E>
        requires
            call_requires(self.0, ()),
        ensures
            call_ensures(self.0, (), res),
    {
        (self.0)()
    }
}

} // verus!
