use vstd::prelude::*;
use std::collections::HashMap;
use crate::error::Error;
use crate::event::{EventKind, Token};
use crate::socket::AsSocket;

verus! {

broadcast use vstd::std_specs::hash::group_hash_axioms;

/// What the registry holds for one handle: the token to echo and the interest set.
pub type Registration = (Token, EventKind);

/// One readiness report: the registration's token and the observed conditions.
pub type Event = (Token, EventKind);

/// The events that one round of raw engine reports yields: a report for a
/// registered handle becomes its token with the observed known conditions;
/// reports for other handles are dropped.
pub open spec fn dispatch(reg: Map<i32, Registration>, raw: Seq<(i32, u32)>) -> Seq<Event>
    decreases raw.len(),
{
    if raw.len() == 0 {
        Seq::empty()
    } else {
        let prev = dispatch(reg, raw.drop_last());
        let (s, b) = raw.last();
        if reg.contains_key(s) {
            prev.push((reg[s].0, EventKind::spec_from_bits(b)))
        } else {
            prev
        }
    }
}

/// Whether `e` is what a report in `raw` of a registered handle turns into.
pub open spec fn reported_by(reg: Map<i32, Registration>, raw: Seq<(i32, u32)>, e: Event) -> bool {
    exists|j: int|
        0 <= j < raw.len() && reg.contains_key(#[trigger] raw[j].0) && e == (
            reg[raw[j].0].0,
            EventKind::spec_from_bits(raw[j].1),
        )
}

/// The engine's wait argument for a poll timeout in milliseconds: no timeout
/// waits without end (-1); a timeout too long for the engine is clamped.
pub open spec fn wait_millis_of(timeout_ms: Option<u128>) -> i64 {
    match timeout_ms {
        None => -1i64,
        Some(ms) => if ms > i64::MAX as u128 {
            i64::MAX
        } else {
            ms as i64
        },
    }
}

/// Encodes a poll timeout for the engine's wait; zero is a nonblocking check.
pub fn wait_millis(timeout_ms: Option<u128>) -> (r: i64)
    ensures
        r == wait_millis_of(timeout_ms),
        timeout_ms == Some(0u128) ==> r == 0,
        timeout_ms is None ==> r < 0,
        timeout_ms is Some ==> r >= 0,
{
    match timeout_ms {
        None => -1,
        Some(ms) => if ms > i64::MAX as u128 {
            i64::MAX
        } else {
            ms as i64
        },
    }
}

/// A reusable buffer of readiness results, refilled by each poll.
pub struct Events {
    items: Vec<Event>,
}

impl View for Events {
    type V = Seq<Event>;

    closed spec fn view(&self) -> Seq<Event> {
        self.items@
    }
}

impl Events {
    pub fn new() -> (r: Events)
        ensures
            r@ == Seq::<Event>::empty(),
    {
        Events { items: Vec::new() }
    }

    pub fn len(&self) -> (r: usize)
        ensures
            r == self@.len(),
    {
        self.items.len()
    }

    pub fn is_empty(&self) -> (r: bool)
        ensures
            r == (self@.len() == 0),
    {
        self.items.len() == 0
    }

    pub fn get(&self, i: usize) -> (r: Option<Event>)
        ensures
            i < self@.len() ==> r == Some(self@[i as int]),
            i >= self@.len() ==> r is None,
    {
        if i < self.items.len() {
            Some(self.items[i])
        } else {
            None
        }
    }

    pub fn clear(&mut self)
        ensures
            final(self)@ == Seq::<Event>::empty(),
    {
        self.items.clear();
    }
}

/// Readiness multiplexer: tracks which handles are monitored under which token.
pub struct Poll {
    registry: HashMap<i32, Registration>,
}

impl View for Poll {
    type V = Map<i32, Registration>;

    closed spec fn view(&self) -> Map<i32, Registration> {
        self.registry@
    }
}

impl Poll {
    pub fn new() -> (r: Poll)
        ensures
            r@ == Map::<i32, Registration>::empty(),
    {
        Poll { registry: HashMap::new() }
    }

    /// Whether the handle is currently registered.
    pub fn is_registered<S: AsSocket>(&self, socket: &S) -> (r: bool)
        ensures
            r == self@.contains_key(socket.handle()),
    {
        let s = socket.as_socket();
        self.registry.contains_key(&s)
    }

    /// The registration of the handle, if there is one.
    pub fn registration<S: AsSocket>(&self, socket: &S) -> (r: Option<Registration>)
        ensures
            self@.contains_key(socket.handle()) ==> r == Some(self@[socket.handle()]),
            !self@.contains_key(socket.handle()) ==> r is None,
    {
        let s = socket.as_socket();
        match self.registry.get(&s) {
            Some(v) => Some(*v),
            None => None,
        }
    }

    /// Begins monitoring the handle for `interest` under `token`; a handle that
    /// is already registered is refused and left as it was.
    pub fn register<S: AsSocket>(&mut self, socket: &S, token: Token, interest: EventKind) -> (r:
        Result<(), Error>)
        ensures
            old(self)@.contains_key(socket.handle()) ==> r == Err::<(), Error>(
                Error::AlreadyRegistered { sock: socket.handle() },
            ) && final(self)@ == old(self)@,
            !old(self)@.contains_key(socket.handle()) ==> r is Ok && final(self)@ == old(
                self,
            )@.insert(socket.handle(), (token, interest)),
    {
        let s = socket.as_socket();
        if self.registry.contains_key(&s) {
            Err(Error::AlreadyRegistered { sock: s })
        } else {
            self.registry.insert(s, (token, interest));
            Ok(())
        }
    }

    /// Changes the token and interest of a registered handle; a handle that was
    /// never registered is refused.
    pub fn reregister<S: AsSocket>(&mut self, socket: &S, token: Token, interest: EventKind) -> (r:
        Result<(), Error>)
        ensures
            !old(self)@.contains_key(socket.handle()) ==> r == Err::<(), Error>(
                Error::NotRegistered { sock: socket.handle() },
            ) && final(self)@ == old(self)@,
            old(self)@.contains_key(socket.handle()) ==> r is Ok && final(self)@ == old(
                self,
            )@.insert(socket.handle(), (token, interest)),
    {
        let s = socket.as_socket();
        if self.registry.contains_key(&s) {
            self.registry.insert(s, (token, interest));
            Ok(())
        } else {
            Err(Error::NotRegistered { sock: s })
        }
    }

    /// Stops monitoring the handle; a handle that is not registered is refused.
    pub fn deregister<S: AsSocket>(&mut self, socket: &S) -> (r: Result<(), Error>)
        ensures
            !old(self)@.contains_key(socket.handle()) ==> r == Err::<(), Error>(
                Error::NotRegistered { sock: socket.handle() },
            ) && final(self)@ == old(self)@,
            old(self)@.contains_key(socket.handle()) ==> r is Ok && final(self)@ == old(
                self,
            )@.remove(socket.handle()),
    {
        let s = socket.as_socket();
        if self.registry.contains_key(&s) {
            self.registry.remove(&s);
            Ok(())
        } else {
            Err(Error::NotRegistered { sock: s })
        }
    }

    /// Clears `events` and refills it from one round of the engine's raw
    /// readiness reports `raw` (handle, readiness bits); returns the number of
    /// events.
    pub fn poll(&self, raw: &Vec<(i32, u32)>, events: &mut Events) -> (r: usize)
        ensures
            final(events)@ == dispatch(self@, raw@),
            r == final(events)@.len(),
    {
        events.items.clear();
        let mut i: usize = 0;
        while i < raw.len()
            invariant
                i <= raw@.len(),
                events.items@ == dispatch(self@, raw@.take(i as int)),
                events.items@.len() <= i,
            decreases raw@.len() - i,
        {
            let (s, b) = raw[i];
            assert(raw@.take(i as int + 1).drop_last() == raw@.take(i as int));
            match self.registry.get(&s) {
                Some(reg) => {
                    let kind = EventKind::from_bits(b);
                    events.items.push((reg.0, kind));
                },
                None => {},
            }
            i = i + 1;
        }
        assert(raw@.take(raw@.len() as int) == raw@);
        events.items.len()
    }
}

} // verus!

verus! {

/// Every event of a round is what some report in that round of a registered
/// handle turns into.
pub proof fn lemma_dispatch_reported(reg: Map<i32, Registration>, raw: Seq<(i32, u32)>)
    ensures
        forall|i: int|
            0 <= i < dispatch(reg, raw).len() ==> reported_by(reg, raw, #[trigger] dispatch(
                reg,
                raw,
            )[i]),
    decreases raw.len(),
{
    if raw.len() > 0 {
        let prev = raw.drop_last();
        lemma_dispatch_reported(reg, prev);
        assert forall|i: int|
            0 <= i < dispatch(reg, raw).len() implies reported_by(
            reg,
            raw,
            #[trigger] dispatch(reg, raw)[i],
        ) by {
            if i < dispatch(reg, prev).len() {
                let e = dispatch(reg, prev)[i];
                assert(reported_by(reg, prev, e));
                let j = choose|j: int|
                    0 <= j < prev.len() && reg.contains_key(#[trigger] prev[j].0) && e == (
                        reg[prev[j].0].0,
                        EventKind::spec_from_bits(prev[j].1),
                    );
                assert(raw[j] == prev[j]);
            } else {
                assert(raw[raw.len() - 1] == raw.last());
            }
        }
    }
}

/// After a handle is deregistered, no event of any later round comes from it:
/// each event is the token of a handle still registered, reported in that round.
/// When no other registered handle shares its token, that stale token never
/// appears at all.
pub proof fn lemma_deregister_silences(reg: Map<i32, Registration>, s: i32, raw: Seq<(i32, u32)>)
    ensures
        !reg.remove(s).contains_key(s),
        forall|i: int|
            0 <= i < dispatch(reg.remove(s), raw).len() ==> reported_by(
                reg.remove(s),
                raw,
                #[trigger] dispatch(reg.remove(s), raw)[i],
            ),
        reg.contains_key(s) && (forall|s2: i32|
            #[trigger] reg.contains_key(s2) && s2 != s ==> reg[s2].0 != reg[s].0) ==> forall|
            i: int,
        |
            0 <= i < dispatch(reg.remove(s), raw).len() ==> (#[trigger] dispatch(
                reg.remove(s),
                raw,
            )[i]).0 != reg[s].0,
{
    let r2 = reg.remove(s);
    lemma_dispatch_reported(r2, raw);
    if reg.contains_key(s) && (forall|s2: i32|
        #[trigger] reg.contains_key(s2) && s2 != s ==> reg[s2].0 != reg[s].0) {
        assert forall|i: int| 0 <= i < dispatch(r2, raw).len() implies (#[trigger] dispatch(
            r2,
            raw,
        )[i]).0 != reg[s].0 by {
            assert(reported_by(r2, raw, dispatch(r2, raw)[i]));
            let j = choose|j: int|
                0 <= j < raw.len() && r2.contains_key(#[trigger] raw[j].0) && dispatch(r2, raw)[i]
                    == (r2[raw[j].0].0, EventKind::spec_from_bits(raw[j].1));
            assert(reg.contains_key(raw[j].0) && raw[j].0 != s);
        }
    }
}

/// After a reregistration with a new token, each later report of the handle
/// carries the new token; when no other registered handle shares the old
/// token, the old token never appears.
pub proof fn lemma_reregister_new_token(
    reg: Map<i32, Registration>,
    s: i32,
    t: Token,
    k: EventKind,
    raw: Seq<(i32, u32)>,
    b: u32,
)
    requires
        reg.contains_key(s),
    ensures
        dispatch(reg.insert(s, (t, k)), raw.push((s, b))) == dispatch(
            reg.insert(s, (t, k)),
            raw,
        ).push((t, EventKind::spec_from_bits(b))),
        (forall|s2: i32| #[trigger] reg.contains_key(s2) && s2 != s ==> reg[s2].0 != reg[s].0)
            ==> forall|i: int|
            0 <= i < dispatch(reg.insert(s, (t, k)), raw).len() && (#[trigger] dispatch(
                reg.insert(s, (t, k)),
                raw,
            )[i]).0 == reg[s].0 ==> t == reg[s].0,
{
    let r2 = reg.insert(s, (t, k));
    assert(raw.push((s, b)).drop_last() == raw);
    lemma_dispatch_reported(r2, raw);
    assert forall|i: int|
        0 <= i < dispatch(r2, raw).len() && (forall|s2: i32| #[trigger] reg.contains_key(s2) && s2
            != s ==> reg[s2].0 != reg[s].0) && (#[trigger] dispatch(r2, raw)[i]).0 == reg[s].0
        implies t == reg[s].0 by {
        assert(reported_by(r2, raw, dispatch(r2, raw)[i]));
        let j = choose|j: int|
            0 <= j < raw.len() && r2.contains_key(#[trigger] raw[j].0) && dispatch(r2, raw)[i] == (
                r2[raw[j].0].0,
                EventKind::spec_from_bits(raw[j].1),
            );
        if raw[j].0 != s {
            assert(reg.contains_key(raw[j].0));
        }
    }
}

} // verus!

verus! {

/// A report in a round of a registered handle yields an event with that
/// handle's token and the reported known conditions.
pub proof fn lemma_registered_report_delivered(
    reg: Map<i32, Registration>,
    raw: Seq<(i32, u32)>,
    j: int,
)
    requires
        0 <= j < raw.len(),
        reg.contains_key(raw[j].0),
    ensures
        exists|i: int|
            0 <= i < dispatch(reg, raw).len() && #[trigger] dispatch(reg, raw)[i] == (
                reg[raw[j].0].0,
                EventKind::spec_from_bits(raw[j].1),
            ),
    decreases raw.len(),
{
    let prev = raw.drop_last();
    if j == raw.len() - 1 {
        let i = dispatch(reg, prev).len() as int;
        assert(dispatch(reg, raw)[i] == (reg[raw[j].0].0, EventKind::spec_from_bits(raw[j].1)));
    } else {
        assert(prev[j] == raw[j]);
        lemma_registered_report_delivered(reg, prev, j);
        let i = choose|i: int|
            0 <= i < dispatch(reg, prev).len() && #[trigger] dispatch(reg, prev)[i] == (
                reg[prev[j].0].0,
                EventKind::spec_from_bits(prev[j].1),
            );
        assert(dispatch(reg, raw)[i] == dispatch(reg, prev)[i]);
    }
}

} // verus!
