//! The steps of an application, gathered from its plugins before it runs:
//! those run once at startup, those run every frame and those run once at
//! shutdown, each list in the order the steps were added.
use vstd::prelude::*;

verus! {

/// The three step lists of an application under construction.
pub struct AppSteps<S> {
    startup_steps: Vec<S>,
    run_steps: Vec<S>,
    shutdown_steps: Vec<S>,
}

impl<S> AppSteps<S> {
    /// The steps run once at startup.
    pub closed spec fn startup(&self) -> Seq<S> {
        self.startup_steps@
    }

    /// The steps run every frame.
    pub closed spec fn run(&self) -> Seq<S> {
        self.run_steps@
    }

    /// The steps run once at shutdown.
    pub closed spec fn shutdown(&self) -> Seq<S> {
        self.shutdown_steps@
    }

    /// No steps yet.
    pub fn builder() -> (a: Self)
        ensures
            a.startup() == Seq::<S>::empty(),
            a.run() == Seq::<S>::empty(),
            a.shutdown() == Seq::<S>::empty(),
    {
        AppSteps { startup_steps: Vec::new(), run_steps: Vec::new(), shutdown_steps: Vec::new() }
    }

    /// Adds steps after the startup steps.
    pub fn add_startup_steps(self, steps: Vec<S>) -> (a: Self)
        ensures
            a.startup() == self.startup() + steps@,
            a.run() == self.run(),
            a.shutdown() == self.shutdown(),
    {
        let mut a = self;
        let mut steps = steps;
        a.startup_steps.append(&mut steps);
        a
    }

    /// Adds steps after the per-frame steps.
    pub fn add_run_steps(self, steps: Vec<S>) -> (a: Self)
        ensures
            a.startup() == self.startup(),
            a.run() == self.run() + steps@,
            a.shutdown() == self.shutdown(),
    {
        let mut a = self;
        let mut steps = steps;
        a.run_steps.append(&mut steps);
        a
    }

    /// Adds steps after the shutdown steps.
    pub fn add_shutdown_steps(self, steps: Vec<S>) -> (a: Self)
        ensures
            a.startup() == self.startup(),
            a.run() == self.run(),
            a.shutdown() == self.shutdown() + steps@,
    {
        let mut a = self;
        let mut steps = steps;
        a.shutdown_steps.append(&mut steps);
        a
    }

    /// Adds the steps of one plugin: its startup, per-frame and shutdown
    /// steps each go after those already there.
    pub fn add_plugin(self, startup: Vec<S>, run: Vec<S>, shutdown: Vec<S>) -> (a: Self)
        ensures
            a.startup() == self.startup() + startup@,
            a.run() == self.run() + run@,
            a.shutdown() == self.shutdown() + shutdown@,
    {
        let a = self.add_startup_steps(startup);
        let a = a.add_run_steps(run);
        a.add_shutdown_steps(shutdown)
    }

    /// The three lists, to build the schedules from.
    pub fn build(self) -> (lists: (Vec<S>, Vec<S>, Vec<S>))
        ensures
            lists.0@ == self.startup(),
            lists.1@ == self.run(),
            lists.2@ == self.shutdown(),
    {
        (self.startup_steps, self.run_steps, self.shutdown_steps)
    }
}

/// Plugins added one after the other contribute their steps in that order:
/// the steps of the first plugin come before those of the second, in each
/// of the three lists.
pub proof fn law_plugins_keep_their_order<S>(
    before: AppSteps<S>,
    middle: AppSteps<S>,
    after: AppSteps<S>,
    first: (Seq<S>, Seq<S>, Seq<S>),
    second: (Seq<S>, Seq<S>, Seq<S>),
)
    requires
        middle.startup() == before.startup() + first.0,
        middle.run() == before.run() + first.1,
        middle.shutdown() == before.shutdown() + first.2,
        after.startup() == middle.startup() + second.0,
        after.run() == middle.run() + second.1,
        after.shutdown() == middle.shutdown() + second.2,
    ensures
        after.startup() == before.startup() + first.0 + second.0,
        after.run() == before.run() + first.1 + second.1,
        after.shutdown() == before.shutdown() + first.2 + second.2,
        after.startup().len() == before.startup().len() + first.0.len() + second.0.len(),
{
}

} // verus!
