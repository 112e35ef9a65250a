//! The start of a node, step by step.
//!
//! A [`Startup`] walks through a plan: it says what to do next and is told how
//! that went. The first step that fails ends the start.

use vstd::prelude::*;

use crate::service::action::{action, action_of, is_refused, Action};
use crate::service::config::Configuration;
use crate::service::database::UNSUPPORTED_DATABASE;
use crate::service::keystore::{
    hook_up_remote_keystore, ServiceError, REMOTE_KEYSTORES_UNSUPPORTED,
};
use crate::service::steps::{
    first_wanted, full_plan, is_wanted, partial_plan, wanted_steps, Step, ORDER, PARTIAL_STEPS,
    STEPS,
};

verus! {

/// How a step went.
#[derive(Debug, Clone, Copy, PartialEq, Eq, Structural)]
pub enum Outcome {
    /// The step was taken.
    Done,
    /// The step was tried and failed.
    Failed,
}

/// Where a start stands.
#[derive(Debug)]
pub enum Progress<'a> {
    /// This is to be done next.
    Perform(Action<'a>),
    /// All is done.
    Complete,
    /// The start has ended, for this step failed.
    Failed(Step),
    /// The start has ended, for the next step cannot be taken.
    Refused(String),
}

/// A start as seen from outside.
pub struct StartupView<'a> {
    /// The configuration of the node.
    pub config: &'a Configuration,
    /// The steps that are not taken yet.
    pub remaining: Seq<Step>,
    /// Whether the first of them was tried and failed.
    pub failed: bool,
}

impl<'a> StartupView<'a> {
    /// Whether the next step cannot be taken.
    pub open spec fn is_refused(self) -> bool {
        self.remaining.len() > 0 && is_refused(self.config, self.remaining.first())
    }

    /// Whether nothing more is going to be done.
    pub open spec fn has_ended(self) -> bool {
        self.failed || self.remaining.len() == 0 || self.is_refused()
    }

    /// The start once the outcome of its next step is known. A start that has
    /// ended stays as it is.
    pub open spec fn after(self, outcome: Outcome) -> StartupView<'a> {
        if self.has_ended() {
            self
        } else {
            match outcome {
                Outcome::Done => StartupView { remaining: self.remaining.drop_first(), ..self },
                Outcome::Failed => StartupView { failed: true, ..self },
            }
        }
    }

    /// Whether `progress` tells where the start stands.
    pub open spec fn stands_at(self, progress: Progress<'a>) -> bool {
        if self.failed {
            progress == Progress::<'a>::Failed(self.remaining.first())
        } else if self.remaining.len() == 0 {
            progress == Progress::<'a>::Complete
        } else if self.is_refused() {
            progress is Refused && progress->Refused_0@ == UNSUPPORTED_DATABASE@
        } else {
            progress == Progress::Perform(action_of(self.config, self.remaining.first()))
        }
    }
}

/// The start of a node.
#[derive(Debug)]
pub struct Startup<'a> {
    config: &'a Configuration,
    /// The number of the next step.
    next: usize,
    /// The number of the step that comes after the last one.
    end: usize,
    failed: bool,
}

impl<'a> View for Startup<'a> {
    type V = StartupView<'a>;

    closed spec fn view(&self) -> StartupView<'a> {
        StartupView {
            config: self.config,
            remaining: wanted_steps(self.config, self.next as int, self.end as int),
            failed: self.failed,
        }
    }
}

impl<'a> Startup<'a> {
    #[verifier::type_invariant]
    closed spec fn is_well_formed(self) -> bool {
        &&& self.next <= self.end <= STEPS
        &&& self.next < self.end ==> is_wanted(self.config, ORDER@[self.next as int])
        &&& self.failed ==> self.next < self.end
    }

    /// The start that takes the first `end` steps, as far as they are wanted.
    fn begin(config: &'a Configuration, end: usize) -> (startup: Startup<'a>)
        requires
            end <= STEPS,
        ensures
            startup@ == (StartupView {
                config,
                remaining: wanted_steps(config, 0, end as int),
                failed: false,
            }),
    {
        Startup { config, next: first_wanted(config, 0, end), end, failed: false }
    }

    /// The step that is to be taken next, or that failed.
    pub fn next_step(&self) -> (step: Option<Step>)
        ensures
            step == if self@.remaining.len() == 0 {
                None
            } else {
                Some(self@.remaining.first())
            },
    {
        proof {
            use_type_invariant(self);
        }
        if self.next >= self.end {
            None
        } else {
            let step = ORDER[self.next];
            assert(self@.remaining.first() == step);
            Some(step)
        }
    }

    /// Where the start stands.
    pub fn progress(&self) -> (progress: Progress<'a>)
        ensures
            self@.stands_at(progress),
    {
        proof {
            use_type_invariant(self);
        }
        let step = match self.next_step() {
            Some(step) => step,
            None => return Progress::Complete,
        };
        if self.failed {
            return Progress::Failed(step);
        }
        match action(self.config, step) {
            Ok(action) => Progress::Perform(action),
            Err(reason) => Progress::Refused(reason),
        }
    }

    /// Takes note of the outcome of the next step.
    pub fn advance(&mut self, outcome: Outcome)
        ensures
            final(self)@ == old(self)@.after(outcome),
    {
        match self.progress() {
            Progress::Perform(_) => {
                proof {
                    use_type_invariant(&*self);
                }
                match outcome {
                    Outcome::Done => {
                        let next = first_wanted(self.config, self.next + 1, self.end);
                        assert(self@.remaining.drop_first() =~= wanted_steps(
                            self.config,
                            self.next + 1,
                            self.end as int,
                        ));
                        self.next = next;
                    },
                    Outcome::Failed => {
                        self.failed = true;
                    },
                }
            },
            _ => {},
        }
    }
}

/// Begins to build the components that a full node and the commands on its
/// chain have in common. A configuration with a remote keystore is refused.
pub fn new_partial<'a>(config: &'a Configuration) -> (r: Result<Startup<'a>, ServiceError>)
    ensures
        r is Ok <==> config.keystore_remote is None,
        r is Ok ==> r->Ok_0@ == (StartupView {
            config,
            remaining: partial_plan(config),
            failed: false,
        }),
        r is Err ==> r->Err_0->Other_0@ == REMOTE_KEYSTORES_UNSUPPORTED@,
        r is Err ==> r->Err_0->Other_0@ == "Remote Keystores are not supported."@,
{
    if config.keystore_remote.is_some() {
        return Err(ServiceError::Other(REMOTE_KEYSTORES_UNSUPPORTED.to_owned()));
    }
    Ok(Startup::begin(config, PARTIAL_STEPS))
}

/// Begins to start a full node. It is refused where [`new_partial`] is.
pub fn new_full<'a>(config: &'a Configuration) -> (r: Result<Startup<'a>, ServiceError>)
    ensures
        r is Ok <==> config.keystore_remote is None,
        r is Ok ==> r->Ok_0@ == (StartupView {
            config,
            remaining: full_plan(config),
            failed: false,
        }),
        r is Err ==> r->Err_0->Other_0@ == REMOTE_KEYSTORES_UNSUPPORTED@,
        r is Err ==> r->Err_0->Other_0@ == "Remote Keystores are not supported."@,
{
    match new_partial(config) {
        Ok(_) => {},
        Err(error) => return Err(error),
    }
    if let Some(url) = &config.keystore_remote {
        match hook_up_remote_keystore(url.as_str()) {
            Ok(_) => {},
            Err(error) => return Err(error),
        }
    }
    Ok(Startup::begin(config, STEPS))
}

/// A start begins unless a remote keystore is configured, whatever else is; it
/// then has its whole plan ahead, and has not failed.
pub proof fn law_start_begins_without_a_remote_keystore<'a>(
    config: &'a Configuration,
    partial: Result<Startup<'a>, ServiceError>,
    full: Result<Startup<'a>, ServiceError>,
)
    requires
        call_ensures(new_partial, (config,), partial),
        call_ensures(new_full, (config,), full),
    ensures
        config.keystore_remote is None ==> {
            &&& partial matches Ok(startup) && startup@.config == config && startup@.remaining
                == partial_plan(config) && !startup@.failed
            &&& full matches Ok(startup) && startup@.config == config && startup@.remaining
                == full_plan(config) && !startup@.failed
        },
        config.keystore_remote is Some ==> {
            &&& partial matches Err(ServiceError::Other(reason)) && reason@
                == "Remote Keystores are not supported."@
            &&& full matches Err(ServiceError::Other(reason)) && reason@
                == "Remote Keystores are not supported."@
        },
{
}

/// The next step is the first that is left, and there is none once all are taken.
pub proof fn law_next_step_is_the_first_left<'a>(startup: &Startup<'a>, step: Option<Step>)
    requires
        call_ensures(Startup::<'a>::next_step, (startup,), step),
    ensures
        startup@.remaining.len() == 0 ==> step is None,
        startup@.remaining.len() > 0 ==> step == Some(startup@.remaining[0]),
{
}

} // verus!
