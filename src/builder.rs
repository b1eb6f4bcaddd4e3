use vstd::prelude::*;
use crate::error::Error;

verus! {

/// Number of pending connections a listening handle queues.
pub const LISTEN_BACKLOG: i32 = 128;

/// One call into the transport engine that a construction makes.
#[derive(PartialEq, Eq, Structural, Clone, Copy, Debug)]
pub enum Step {
    /// Process-wide engine initialization, safe to repeat.
    Init,
    /// Allocate a handle for the target address's family.
    Create,
    /// Make sends on the handle nonblocking.
    SetSendNonblocking,
    /// Make receives (and accepts) on the handle nonblocking.
    SetRecvNonblocking,
    /// Connect the handle to the target address.
    Connect,
    /// Bind the handle to the local address.
    Bind,
    /// Put the handle into listening state.
    Listen { backlog: i32 },
}

/// Engine calls of a connect: in nonblocking mode both directions are made
/// nonblocking before the connect is issued.
pub open spec fn connect_plan(nonblocking: bool) -> Seq<Step> {
    if nonblocking {
        seq![Step::Init, Step::Create, Step::SetSendNonblocking, Step::SetRecvNonblocking, Step::Connect]
    } else {
        seq![Step::Init, Step::Create, Step::Connect]
    }
}

/// Engine calls of a bind: listen with the fixed backlog, then in nonblocking
/// mode make the receive direction nonblocking.
pub open spec fn bind_plan(nonblocking: bool) -> Seq<Step> {
    let base = seq![Step::Init, Step::Create, Step::Bind, Step::Listen { backlog: LISTEN_BACKLOG }];
    if nonblocking {
        base.push(Step::SetRecvNonblocking)
    } else {
        base
    }
}

/// Engine calls that align an accepted stream with the builder's mode.
pub open spec fn accept_plan(nonblocking: bool) -> Seq<Step> {
    if nonblocking {
        seq![Step::SetSendNonblocking, Step::SetRecvNonblocking]
    } else {
        Seq::empty()
    }
}

/// What an engine call's outcome means for the construction: a would-block
/// from the connect of a nonblocking construction is a connection in progress,
/// not a failure; every other outcome stands as it is.
pub open spec fn settled(nonblocking: bool, step: Step, outcome: Result<(), Error>) -> Result<(), Error> {
    match outcome {
        Err(Error::WouldBlock { .. }) if nonblocking && step == Step::Connect => Ok(()),
        _ => outcome,
    }
}

/// Where a construction stands: the plan's next step, or its end.
#[derive(PartialEq, Eq, Structural, Clone, Copy, Debug)]
pub enum Action {
    /// Perform this engine call and hand its outcome to `advance`.
    Perform(Step),
    /// Every call succeeded: the socket is ready to be handed out.
    Finished,
    /// A call failed; the error is surfaced to the caller.
    Failed(Error),
}

/// The action for a plan with `next` calls done and the failure so far.
pub open spec fn action_of(plan: Seq<Step>, next: nat, failed: Option<Error>) -> Action {
    match failed {
        Some(e) => Action::Failed(e),
        None => if next < plan.len() {
            Action::Perform(plan[next as int])
        } else {
            Action::Finished
        },
    }
}

/// The state after feeding `outcomes`, one per performed call, from the start
/// of `plan`; calls after the end or after a failure change nothing.
pub open spec fn run(nonblocking: bool, plan: Seq<Step>, outcomes: Seq<Result<(), Error>>) -> (
    nat,
    Option<Error>,
)
    decreases outcomes.len(),
{
    if outcomes.len() == 0 {
        (0, None)
    } else {
        let (next, failed) = run(nonblocking, plan, outcomes.drop_last());
        if failed is Some || next >= plan.len() {
            (next, failed)
        } else {
            match settled(nonblocking, plan[next as int], outcomes.last()) {
                Ok(()) => ((next + 1) as nat, None),
                Err(e) => (next, Some(e)),
            }
        }
    }
}

/// A connect, bind or accept in progress: which engine calls remain, and
/// whether one failed. The caller performs each requested call and reports
/// its outcome.
pub struct Construction {
    nonblocking: bool,
    plan: Vec<Step>,
    next: usize,
    failed: Option<Error>,
    outcomes: Ghost<Seq<Result<(), Error>>>,
}

impl Construction {
    pub closed spec fn spec_nonblocking(&self) -> bool {
        self.nonblocking
    }

    pub closed spec fn spec_plan(&self) -> Seq<Step> {
        self.plan@
    }

    pub closed spec fn spec_next(&self) -> nat {
        self.next as nat
    }

    pub closed spec fn spec_failed(&self) -> Option<Error> {
        self.failed
    }

    /// The outcomes reported so far, one per `advance`.
    pub closed spec fn spec_outcomes(&self) -> Seq<Result<(), Error>> {
        self.outcomes@
    }

    pub open spec fn spec_action(&self) -> Action {
        action_of(self.spec_plan(), self.spec_next(), self.spec_failed())
    }

    pub open spec fn wf(&self) -> bool {
        &&& self.spec_next() <= self.spec_plan().len()
        &&& (self.spec_next(), self.spec_failed()) == run(
            self.spec_nonblocking(),
            self.spec_plan(),
            self.spec_outcomes(),
        )
    }

    fn start(nonblocking: bool, plan: Vec<Step>) -> (r: Construction)
        ensures
            r.spec_nonblocking() == nonblocking,
            r.spec_plan() == plan@,
            r.spec_next() == 0,
            r.spec_failed() is None,
            r.spec_outcomes() == Seq::<Result<(), Error>>::empty(),
            r.wf(),
    {
        Construction { nonblocking, plan, next: 0, failed: None, outcomes: Ghost(Seq::empty()) }
    }

    /// The call to perform now, or how the construction ended.
    pub fn action(&self) -> (r: Action)
        requires
            self.wf(),
        ensures
            r == self.spec_action(),
    {
        match self.failed {
            Some(e) => Action::Failed(e),
            None => if self.next < self.plan.len() {
                Action::Perform(self.plan[self.next])
            } else {
                Action::Finished
            },
        }
    }

    /// Takes the outcome of the call that `action` requested and returns what
    /// comes next. Once finished or failed, the construction stays as it is.
    pub fn advance(&mut self, outcome: Result<(), Error>) -> (r: Action)
        requires
            old(self).wf(),
        ensures
            final(self).wf(),
            final(self).spec_nonblocking() == old(self).spec_nonblocking(),
            final(self).spec_plan() == old(self).spec_plan(),
            final(self).spec_outcomes() == old(self).spec_outcomes().push(outcome),
            old(self).spec_failed() is Some || old(self).spec_next() >= old(self).spec_plan().len()
                ==> final(self).spec_next() == old(self).spec_next() && final(self).spec_failed()
                == old(self).spec_failed(),
            old(self).spec_failed() is None && old(self).spec_next() < old(self).spec_plan().len()
                ==> match settled(
                old(self).spec_nonblocking(),
                old(self).spec_plan()[old(self).spec_next() as int],
                outcome,
            ) {
                Ok(()) => final(self).spec_next() == old(self).spec_next() + 1
                    && final(self).spec_failed() is None,
                Err(e) => final(self).spec_next() == old(self).spec_next()
                    && final(self).spec_failed() == Some(e),
            },
            r == final(self).spec_action(),
    {
        proof {
            assert(self.outcomes@.push(outcome).drop_last() =~= self.outcomes@);
        }
        self.outcomes = Ghost(self.outcomes@.push(outcome));
        if self.failed.is_none() && self.next < self.plan.len() {
            let step = self.plan[self.next];
            match settle(self.nonblocking, step, outcome) {
                Ok(()) => {
                    self.next = self.next + 1;
                },
                Err(e) => {
                    self.failed = Some(e);
                },
            }
        }
        self.action()
    }
}

/// Interprets an engine call's outcome under the given mode.
pub fn settle(nonblocking: bool, step: Step, outcome: Result<(), Error>) -> (r: Result<(), Error>)
    ensures
        r == settled(nonblocking, step, outcome),
{
    match outcome {
        Err(Error::WouldBlock { code }) => {
            if nonblocking && step == Step::Connect {
                Ok(())
            } else {
                Err(Error::WouldBlock { code })
            }
        },
        _ => outcome,
    }
}

/// Configuration shared by the connect, bind and accept operations.
pub struct Builder {
    pub nonblocking: bool,
}

impl Builder {
    /// A builder in blocking mode.
    pub fn new() -> (r: Builder)
        ensures
            r.nonblocking == false,
    {
        Builder { nonblocking: false }
    }

    /// Moves subsequent constructions into or out of nonblocking mode.
    pub fn nonblocking(self, nonblocking: bool) -> (r: Builder)
        ensures
            r.nonblocking == nonblocking,
    {
        let mut b = self;
        b.nonblocking = nonblocking;
        b
    }

    /// Starts opening a connection to a remote host.
    pub fn connect(&self) -> (r: Construction)
        ensures
            r.spec_nonblocking() == self.nonblocking,
            r.spec_plan() == connect_plan(self.nonblocking),
            r.spec_outcomes() == Seq::<Result<(), Error>>::empty(),
            r.spec_next() == 0,
            r.spec_failed() is None,
            r.wf(),
    {
        let mut plan: Vec<Step> = Vec::new();
        plan.push(Step::Init);
        plan.push(Step::Create);
        if self.nonblocking {
            plan.push(Step::SetSendNonblocking);
            plan.push(Step::SetRecvNonblocking);
        }
        plan.push(Step::Connect);
        assert(plan@ == connect_plan(self.nonblocking));
        Construction::start(self.nonblocking, plan)
    }

    /// Starts creating a listener bound to a local address.
    pub fn bind(&self) -> (r: Construction)
        ensures
            r.spec_nonblocking() == self.nonblocking,
            r.spec_plan() == bind_plan(self.nonblocking),
            r.spec_outcomes() == Seq::<Result<(), Error>>::empty(),
            r.spec_next() == 0,
            r.spec_failed() is None,
            r.wf(),
    {
        let mut plan: Vec<Step> = Vec::new();
        plan.push(Step::Init);
        plan.push(Step::Create);
        plan.push(Step::Bind);
        plan.push(Step::Listen { backlog: LISTEN_BACKLOG });
        if self.nonblocking {
            plan.push(Step::SetRecvNonblocking);
        }
        assert(plan@ == bind_plan(self.nonblocking));
        Construction::start(self.nonblocking, plan)
    }

    /// Starts aligning an accepted stream with this builder's mode.
    pub fn accept(&self) -> (r: Construction)
        ensures
            r.spec_nonblocking() == self.nonblocking,
            r.spec_plan() == accept_plan(self.nonblocking),
            r.spec_outcomes() == Seq::<Result<(), Error>>::empty(),
            r.spec_next() == 0,
            r.spec_failed() is None,
            r.wf(),
    {
        let mut plan: Vec<Step> = Vec::new();
        if self.nonblocking {
            plan.push(Step::SetSendNonblocking);
            plan.push(Step::SetRecvNonblocking);
        }
        assert(plan@ == accept_plan(self.nonblocking));
        Construction::start(self.nonblocking, plan)
    }
}

} // verus!

verus! {

/// In nonblocking mode a connect whose earlier calls succeed ends successfully
/// when the connect call itself succeeds or would block (the connection is then
/// in progress); any other connect failure is surfaced. In blocking mode a
/// would-block from the connect is surfaced as it is.
pub proof fn lemma_nonblocking_connect_in_progress(outcome: Result<(), Error>)
    ensures
        ({
            let (next, failed) = run(
                true,
                connect_plan(true),
                seq![Ok(()), Ok(()), Ok(()), Ok(()), outcome],
            );
            match outcome {
                Ok(()) => action_of(connect_plan(true), next, failed) == Action::Finished,
                Err(Error::WouldBlock { .. }) => action_of(connect_plan(true), next, failed)
                    == Action::Finished,
                Err(e) => action_of(connect_plan(true), next, failed) == Action::Failed(e),
            }
        }),
        ({
            let (next, failed) = run(false, connect_plan(false), seq![Ok(()), Ok(()), outcome]);
            match outcome {
                Ok(()) => action_of(connect_plan(false), next, failed) == Action::Finished,
                Err(e) => action_of(connect_plan(false), next, failed) == Action::Failed(e),
            }
        }),
{
    let ok: Result<(), Error> = Ok(());
    let nb = seq![ok, ok, ok, ok, outcome];
    assert(nb.drop_last() == seq![ok, ok, ok, ok]);
    assert(seq![ok, ok, ok, ok].drop_last() == seq![ok, ok, ok]);
    assert(seq![ok, ok, ok].drop_last() == seq![ok, ok]);
    assert(seq![ok, ok].drop_last() == seq![ok]);
    assert(seq![ok].drop_last() == Seq::<Result<(), Error>>::empty());
    assert(seq![ok, ok, outcome].drop_last() == seq![ok, ok]);
    reveal_with_fuel(run, 6);
}

} // verus!
