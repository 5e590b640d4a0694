use futures::channel::mpsc::UnboundedReceiver;
use futures::executor::block_on;
use futures::StreamExt;
use route_manager::backend::{BackendNode, BackendRoute};
use route_manager::error::{BackendError, Error};
use route_manager::listener::{
    on_event, respond, undelivered_answer, ListenerAction, ListenerState,
};
use route_manager::manager::{
    pending_reply, reply_outcome, RouteManager, RouteManagerCommand, StopAction,
};
use route_manager::route::{IpAddress, IpNetwork, NetNode, Node, RequiredRoute, RouteSet};

fn ten_slash_eight() -> IpNetwork {
    IpNetwork::new(IpAddress::V4(0x0A00_0000), 8).unwrap()
}

fn gateway() -> IpAddress {
    IpAddress::V4(0xC0A8_0101)
}

fn route_via_gateway() -> RequiredRoute {
    RequiredRoute::new(
        ten_slash_eight(),
        NetNode::RealNode(Node { address: Some(gateway()), interface: None }),
    )
}

fn route_via_default() -> RequiredRoute {
    RequiredRoute::new(
        IpNetwork::new(IpAddress::V4(0xAC10_0000), 12).unwrap(),
        NetNode::DefaultNode,
    )
}

fn set_of(routes: Vec<RequiredRoute>) -> RouteSet {
    let mut set = RouteSet::new();
    for route in routes {
        set.insert(route);
    }
    set
}

fn started() -> (RouteManager, UnboundedReceiver<RouteManagerCommand>) {
    match RouteManager::new(true, RouteSet::new()) {
        Ok(startup) => {
            let mut queue = startup.commands;
            assert_eq!(serve_one(&mut queue, Ok(())), Some(Vec::new()));
            match startup.initial {
                Ok(pending) => assert_eq!(reply_outcome(block_on(pending)), Ok(())),
                Err(error) => panic!("a fresh queue takes the first request: {:?}", error),
            }
            (startup.manager, queue)
        }
        Err(error) => panic!("a manager with an active session must start: {:?}", error),
    }
}

/// Takes the next command and applies it with a backend that answers `verdict`.
/// Returns the routes the backend was handed, or nothing where the loop ends.
fn serve_one(
    queue: &mut UnboundedReceiver<RouteManagerCommand>,
    verdict: Result<(), BackendError>,
) -> Option<Vec<BackendRoute>> {
    match on_event(block_on(queue.next())) {
        ListenerAction::Apply { routes, reply } => {
            let _ = respond(reply, verdict);
            Some(routes)
        }
        ListenerAction::Exit => None,
    }
}

#[test]
fn failed_activation_starts_nothing() {
    match RouteManager::new(false, set_of(vec![route_via_gateway()])) {
        Err(error) => assert_eq!(error, Error::FailedToStartManager),
        Ok(_) => panic!("no manager without a backend session"),
    }
}

#[test]
fn failed_initial_apply_fails_construction() {
    let startup = match RouteManager::new(true, set_of(vec![route_via_gateway()])) {
        Ok(startup) => startup,
        Err(error) => panic!("a manager with an active session must start: {:?}", error),
    };
    let mut queue = startup.commands;
    assert!(serve_one(&mut queue, Err(BackendError { code: 2 })).is_some());
    assert_eq!(
        reply_outcome(block_on(startup.initial.unwrap())),
        Err(Error::AddRoutesFailed(BackendError { code: 2 }))
    );
    let mut manager = startup.manager;
    assert_eq!(manager.stop(), StopAction::DeactivateBackend { signalled: true });
}

#[test]
fn initial_route_reaches_backend_translated() {
    let startup = match RouteManager::new(true, set_of(vec![route_via_gateway()])) {
        Ok(startup) => startup,
        Err(error) => panic!("a manager with an active session must start: {:?}", error),
    };
    let manager = startup.manager;
    let mut queue = startup.commands;
    let pending = startup.initial.unwrap();
    let applied = serve_one(&mut queue, Ok(())).unwrap();
    assert_eq!(
        applied,
        vec![BackendRoute {
            network: IpNetwork { address: IpAddress::V4(0x0A00_0000), prefix: 8 },
            node: Some(BackendNode { gateway: Some(IpAddress::V4(0xC0A8_0101)), device_name: None }),
        }]
    );
    assert_eq!(reply_outcome(block_on(pending)), Ok(()));
    assert!(manager.is_running());
}

#[test]
fn handle_while_running_and_not_after_stop() {
    let (mut manager, _queue) = started();
    assert!(manager.handle().is_ok());
    assert!(manager.handle().is_ok());
    manager.stop();
    match manager.handle() {
        Err(error) => assert_eq!(error, Error::RouteManagerDown),
        Ok(_) => panic!("a stopped manager hands out no handle"),
    }
    assert!(!manager.is_running());
}

#[test]
fn second_stop_does_nothing() {
    let (mut manager, mut queue) = started();
    assert_eq!(manager.stop(), StopAction::DeactivateBackend { signalled: true });
    assert_eq!(manager.stop(), StopAction::Nothing);
    assert_eq!(manager.stop(), StopAction::Nothing);
    // Exactly one shutdown command was sent, and then the queue is closed.
    assert!(matches!(block_on(queue.next()), Some(RouteManagerCommand::Shutdown)));
    assert!(block_on(queue.next()).is_none());
}

#[test]
fn stops_ask_for_one_deactivation() {
    let (mut manager, _queue) = started();
    let mut deactivations = 0;
    for _ in 0..4 {
        if let StopAction::DeactivateBackend { .. } = manager.stop() {
            deactivations += 1;
        }
    }
    assert_eq!(deactivations, 1);
}

#[test]
fn stop_without_loop_still_deactivates() {
    let (mut manager, queue) = started();
    drop(queue);
    assert_eq!(manager.stop(), StopAction::DeactivateBackend { signalled: false });
    assert_eq!(manager.stop(), StopAction::Nothing);
}

#[test]
fn clear_routes_follows_backend_only() {
    let (mut manager, _queue) = started();
    assert_eq!(manager.clear_routes(true), Ok(()));
    assert_eq!(manager.clear_routes(false), Err(Error::ClearRoutesFailed));
    manager.stop();
    assert_eq!(manager.clear_routes(true), Ok(()));
    assert_eq!(manager.clear_routes(false), Err(Error::ClearRoutesFailed));
}

#[test]
fn stale_handle_fails_after_stop() {
    let (mut manager, mut queue) = started();
    let handle = manager.handle().unwrap();
    manager.stop();
    assert!(serve_one(&mut queue, Ok(())).is_none());
    drop(queue);
    match handle.add_routes(set_of(vec![route_via_gateway()])) {
        Err(error) => assert_eq!(error, Error::RouteManagerDown),
        Ok(_) => panic!("the queue is gone"),
    }
}

#[test]
fn manager_add_routes_fails_after_stop() {
    let (mut manager, _queue) = started();
    manager.stop();
    match manager.add_routes(set_of(vec![route_via_gateway()])) {
        Err(error) => assert_eq!(error, Error::RouteManagerDown),
        Ok(_) => panic!("a stopped manager takes no routes"),
    }
}

#[test]
fn manager_add_routes_fails_without_loop() {
    let (manager, queue) = started();
    drop(queue);
    match manager.add_routes(RouteSet::new()) {
        Err(error) => assert_eq!(error, Error::RouteManagerDown),
        Ok(_) => panic!("the queue is gone"),
    }
}

#[test]
fn lost_loop_gives_channel_down() {
    let (manager, mut queue) = started();
    let pending = manager.add_routes(set_of(vec![route_via_gateway()])).unwrap();
    let command = block_on(queue.next());
    assert!(matches!(command, Some(RouteManagerCommand::AddRoutes(_, _))));
    drop(command);
    drop(queue);
    assert_eq!(reply_outcome(block_on(pending)), Err(Error::ManagerChannelDown));
}

#[test]
fn requests_are_applied_in_order_and_apart() {
    let (manager, mut queue) = started();
    let a = manager.handle().unwrap();
    let b = a.clone();
    let first = a.add_routes(set_of(vec![route_via_gateway()])).unwrap();
    let second = b.add_routes(set_of(vec![route_via_default()])).unwrap();
    let call_one = serve_one(&mut queue, Ok(())).unwrap();
    let call_two = serve_one(&mut queue, Ok(())).unwrap();
    assert_eq!(call_one, vec![BackendRoute::translate(&route_via_gateway())]);
    assert_eq!(call_two, vec![BackendRoute::translate(&route_via_default())]);
    assert_eq!(call_two[0].node, None);
    assert_eq!(reply_outcome(block_on(first)), Ok(()));
    assert_eq!(reply_outcome(block_on(second)), Ok(()));
}

#[test]
fn backend_failure_reaches_its_caller_only() {
    let (manager, mut queue) = started();
    let handle = manager.handle().unwrap();
    let first = handle.add_routes(set_of(vec![route_via_gateway()])).unwrap();
    let second = handle.add_routes(set_of(vec![route_via_default()])).unwrap();
    assert!(serve_one(&mut queue, Err(BackendError { code: 87 })).is_some());
    assert!(serve_one(&mut queue, Ok(())).is_some());
    assert_eq!(
        reply_outcome(block_on(first)),
        Err(Error::AddRoutesFailed(BackendError { code: 87 }))
    );
    assert_eq!(reply_outcome(block_on(second)), Ok(()));
}

#[test]
fn abandoned_reply_is_handed_back() {
    let (manager, mut queue) = started();
    let pending = manager.add_routes(set_of(vec![route_via_gateway()])).unwrap();
    drop(pending);
    match on_event(block_on(queue.next())) {
        ListenerAction::Apply { routes, reply } => {
            assert_eq!(routes.len(), 1);
            assert_eq!(
                respond(reply, Err(BackendError { code: 5 })),
                Some(Err(Error::AddRoutesFailed(BackendError { code: 5 })))
            );
        }
        ListenerAction::Exit => panic!("a request is applied"),
    }
}

#[test]
fn delivered_reply_is_not_handed_back() {
    let (manager, mut queue) = started();
    let pending = manager.add_routes(RouteSet::new()).unwrap();
    match on_event(block_on(queue.next())) {
        ListenerAction::Apply { routes, reply } => {
            assert!(routes.is_empty());
            assert_eq!(respond(reply, Ok(())), None);
        }
        ListenerAction::Exit => panic!("a request is applied"),
    }
    assert_eq!(reply_outcome(block_on(pending)), Ok(()));
}

#[test]
fn shutdown_leaves_later_requests_unapplied() {
    let (mut manager, mut queue) = started();
    let handle = manager.handle().unwrap();
    let before = handle.add_routes(set_of(vec![route_via_gateway()])).unwrap();
    manager.stop();
    let after = handle.add_routes(set_of(vec![route_via_default()])).unwrap();
    assert!(serve_one(&mut queue, Ok(())).is_some());
    assert!(serve_one(&mut queue, Ok(())).is_none());
    drop(queue);
    assert_eq!(reply_outcome(block_on(before)), Ok(()));
    assert_eq!(reply_outcome(block_on(after)), Err(Error::ManagerChannelDown));
}

#[test]
fn loop_states_follow_actions() {
    assert_eq!(on_event(None).next_state(), ListenerState::Terminated);
    assert_eq!(
        on_event(Some(RouteManagerCommand::Shutdown)).next_state(),
        ListenerState::Terminated
    );
    let (command, _pending) = RouteManagerCommand::request(set_of(vec![route_via_default()]));
    let entered = on_event(Some(command)).next_state();
    assert_eq!(entered, ListenerState::Processing);
    assert_eq!(entered.after_reply(), ListenerState::Listening);
    assert_eq!(ListenerState::Listening.after_reply(), ListenerState::Listening);
    assert_eq!(ListenerState::Terminated.after_reply(), ListenerState::Terminated);
}

#[test]
fn request_carries_the_submitted_routes() {
    let (command, _pending) =
        RouteManagerCommand::request(set_of(vec![route_via_gateway(), route_via_default()]));
    match command {
        RouteManagerCommand::AddRoutes(routes, _) => {
            assert_eq!(routes.len(), 2);
            assert_eq!(routes.get(0), &route_via_gateway());
            assert_eq!(routes.get(1), &route_via_default());
        }
        RouteManagerCommand::Shutdown => panic!("a request asks for routes"),
    }
}

#[test]
fn unsent_request_is_manager_down() {
    let (reply_tx, reply_rx) = futures::channel::oneshot::channel::<Result<(), Error>>();
    match pending_reply(false, reply_rx) {
        Err(error) => assert_eq!(error, Error::RouteManagerDown),
        Ok(_) => panic!("nothing is pending on a request that was not sent"),
    }
    drop(reply_tx);
}

#[test]
fn sent_request_is_pending_on_its_own_receiver() {
    let (reply_tx, reply_rx) = futures::channel::oneshot::channel::<Result<(), Error>>();
    let pending = match pending_reply(true, reply_rx) {
        Ok(pending) => pending,
        Err(error) => panic!("a sent request is pending: {:?}", error),
    };
    assert!(reply_tx.send(Err(Error::ClearRoutesFailed)).is_ok());
    assert_eq!(block_on(pending), Ok(Err(Error::ClearRoutesFailed)));
}

#[test]
fn reply_outcome_of_each_kind() {
    assert_eq!(reply_outcome(Ok(Ok(()))), Ok(()));
    assert_eq!(
        reply_outcome(Ok(Err(Error::AddRoutesFailed(BackendError { code: 3 })))),
        Err(Error::AddRoutesFailed(BackendError { code: 3 }))
    );
    assert_eq!(
        reply_outcome(Err(futures::channel::oneshot::Canceled)),
        Err(Error::ManagerChannelDown)
    );
}

#[test]
fn undelivered_answer_of_each_kind() {
    assert_eq!(undelivered_answer(Ok(())), None);
    assert_eq!(undelivered_answer(Err(Ok(()))), Some(Ok(())));
    assert_eq!(
        undelivered_answer(Err(Err(Error::AddRoutesFailed(BackendError { code: 9 })))),
        Some(Err(Error::AddRoutesFailed(BackendError { code: 9 })))
    );
}
