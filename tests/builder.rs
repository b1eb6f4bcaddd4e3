use srt::builder::{settle, Action, Builder, Construction, Step, LISTEN_BACKLOG};
use srt::error::Error;

fn drive(c: &mut Construction, outcomes: &[Result<(), Error>]) -> (Vec<Step>, Action) {
    let mut performed = Vec::new();
    let mut action = c.action();
    let mut i = 0;
    while let Action::Perform(step) = action {
        performed.push(step);
        action = c.advance(outcomes[i]);
        i += 1;
    }
    (performed, action)
}

#[test]
fn new_builder_is_blocking() {
    assert!(!Builder::new().nonblocking);
    assert!(Builder::new().nonblocking(true).nonblocking);
    assert!(!Builder::new().nonblocking(true).nonblocking(false).nonblocking);
}

#[test]
fn blocking_connect_plan() {
    let mut c = Builder::new().connect();
    let (steps, end) = drive(&mut c, &[Ok(()), Ok(()), Ok(())]);
    assert_eq!(steps, vec![Step::Init, Step::Create, Step::Connect]);
    assert_eq!(end, Action::Finished);
}

#[test]
fn nonblocking_connect_plan_sets_both_directions_first() {
    let mut c = Builder::new().nonblocking(true).connect();
    let (steps, end) = drive(&mut c, &[Ok(()); 5]);
    assert_eq!(
        steps,
        vec![
            Step::Init,
            Step::Create,
            Step::SetSendNonblocking,
            Step::SetRecvNonblocking,
            Step::Connect
        ]
    );
    assert_eq!(end, Action::Finished);
}

#[test]
fn nonblocking_connect_would_block_is_in_progress() {
    let mut c = Builder::new().nonblocking(true).connect();
    let wb = Err(Error::WouldBlock { code: 6001 });
    let (_, end) = drive(&mut c, &[Ok(()), Ok(()), Ok(()), Ok(()), wb]);
    assert_eq!(end, Action::Finished);
}

#[test]
fn nonblocking_connect_other_failure_is_surfaced() {
    let mut c = Builder::new().nonblocking(true).connect();
    let refused = Err(Error::Transport { code: 1002 });
    let (_, end) = drive(&mut c, &[Ok(()), Ok(()), Ok(()), Ok(()), refused]);
    assert_eq!(end, Action::Failed(Error::Transport { code: 1002 }));
}

#[test]
fn blocking_connect_would_block_is_surfaced() {
    let mut c = Builder::new().connect();
    let wb = Err(Error::WouldBlock { code: 6002 });
    let (_, end) = drive(&mut c, &[Ok(()), Ok(()), wb]);
    assert_eq!(end, Action::Failed(Error::WouldBlock { code: 6002 }));
}

#[test]
fn would_block_outside_connect_is_surfaced() {
    let mut c = Builder::new().nonblocking(true).connect();
    let wb = Err(Error::WouldBlock { code: 6000 });
    let (steps, end) = drive(&mut c, &[Ok(()), Ok(()), wb]);
    assert_eq!(steps.len(), 3);
    assert_eq!(end, Action::Failed(Error::WouldBlock { code: 6000 }));
}

#[test]
fn failure_stops_the_plan() {
    let mut c = Builder::new().bind();
    assert_eq!(c.action(), Action::Perform(Step::Init));
    assert_eq!(c.advance(Ok(())), Action::Perform(Step::Create));
    let fail = Error::Transport { code: 3001 };
    assert_eq!(c.advance(Err(fail)), Action::Failed(fail));
    assert_eq!(c.advance(Ok(())), Action::Failed(fail));
    assert_eq!(c.action(), Action::Failed(fail));
}

#[test]
fn finished_construction_stays_finished() {
    let mut c = Builder::new().accept();
    assert_eq!(c.action(), Action::Finished);
    assert_eq!(c.advance(Err(Error::Transport { code: 1 })), Action::Finished);
}

#[test]
fn bind_plan_listens_with_fixed_backlog() {
    assert_eq!(LISTEN_BACKLOG, 128);
    let mut c = Builder::new().bind();
    let (steps, end) = drive(&mut c, &[Ok(()); 4]);
    assert_eq!(
        steps,
        vec![Step::Init, Step::Create, Step::Bind, Step::Listen { backlog: 128 }]
    );
    assert_eq!(end, Action::Finished);
}

#[test]
fn nonblocking_bind_sets_receive_only() {
    let mut c = Builder::new().nonblocking(true).bind();
    let (steps, _) = drive(&mut c, &[Ok(()); 5]);
    assert_eq!(
        steps,
        vec![
            Step::Init,
            Step::Create,
            Step::Bind,
            Step::Listen { backlog: 128 },
            Step::SetRecvNonblocking
        ]
    );
}

#[test]
fn accept_plans_follow_the_mode() {
    let mut blocking = Builder::new().accept();
    assert_eq!(drive(&mut blocking, &[]).0, Vec::<Step>::new());
    let mut nb = Builder::new().nonblocking(true).accept();
    let (steps, end) = drive(&mut nb, &[Ok(()), Ok(())]);
    assert_eq!(steps, vec![Step::SetSendNonblocking, Step::SetRecvNonblocking]);
    assert_eq!(end, Action::Finished);
}

#[test]
fn every_builder_call_starts_with_init() {
    for nb in [false, true] {
        let b = Builder::new().nonblocking(nb);
        assert_eq!(b.connect().action(), Action::Perform(Step::Init));
        assert_eq!(b.bind().action(), Action::Perform(Step::Init));
    }
}

#[test]
fn settle_swallows_only_nonblocking_connect_would_block() {
    let wb = Err(Error::WouldBlock { code: 6001 });
    assert_eq!(settle(true, Step::Connect, wb), Ok(()));
    assert_eq!(settle(false, Step::Connect, wb), wb);
    assert_eq!(settle(true, Step::Bind, wb), wb);
    let t = Err(Error::Transport { code: 5 });
    assert_eq!(settle(true, Step::Connect, t), t);
    assert_eq!(settle(true, Step::Listen { backlog: 128 }, Ok(())), Ok(()));
}
