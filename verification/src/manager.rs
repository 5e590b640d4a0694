//! The manager, its handles and the commands they enqueue.

use vstd::prelude::*;
use futures::channel::mpsc::{UnboundedReceiver, UnboundedSender};
use futures::channel::oneshot::{Canceled, Receiver, Sender};
use crate::error::Error;
use crate::route::{RequiredRouteView, RouteSet};

verus! {

/// What travels through the command queue.
#[derive(Debug)]
pub enum RouteManagerCommand {
    /// Apply the routes, and answer through the single-use channel.
    AddRoutes(RouteSet, Sender<Result<(), Error>>),
    /// Leave the command loop.
    Shutdown,
}

/// A command without its reply channel.
pub ghost enum CommandView {
    AddRoutes(Seq<RequiredRouteView>),
    Shutdown,
}

impl View for RouteManagerCommand {
    type V = CommandView;

    open spec fn view(&self) -> CommandView {
        match self {
            RouteManagerCommand::AddRoutes(routes, _) => CommandView::AddRoutes(routes@),
            RouteManagerCommand::Shutdown => CommandView::Shutdown,
        }
    }
}

/// The two states of a manager. A manager never leaves `Stopped`.
#[derive(Clone, Copy, Debug, PartialEq, Eq, Hash, Structural)]
pub enum ManagerState {
    Running,
    Stopped,
}

/// What is left to do after a call of `stop`.
#[derive(Clone, Copy, Debug, PartialEq, Eq, Hash, Structural)]
pub enum StopAction {
    /// The manager had stopped before: nothing was sent, and the backend
    /// session is not to be touched.
    Nothing,
    /// The manager was running: the shutdown command was sent, and the
    /// backend session is now to be deactivated. `signalled` says whether
    /// the command loop was still there to take the command.
    DeactivateBackend { signalled: bool },
}

/// Whether a handle can be had in the state, and the error if not.
pub open spec fn handle_outcome(state: ManagerState) -> Result<(), Error> {
    match state {
        ManagerState::Running => Ok(()),
        ManagerState::Stopped => Err(Error::RouteManagerDown),
    }
}

/// The state that a call of `stop` leaves the manager in.
pub open spec fn after_stop(state: ManagerState) -> ManagerState {
    ManagerState::Stopped
}

/// Whether a call of `stop` in the state sends the shutdown command and
/// asks for the backend session to be deactivated.
pub open spec fn stop_acts(state: ManagerState) -> bool {
    state == ManagerState::Running
}

/// The number of backend deactivations that a run of calls of `stop` asks
/// for, the first of them made in the given state.
pub open spec fn deactivations(state: ManagerState, stops: nat) -> nat
    decreases stops,
{
    if stops == 0 {
        0
    } else {
        let rest = deactivations(ManagerState::Stopped, (stops - 1) as nat);
        if stop_acts(state) {
            1 + rest
        } else {
            rest
        }
    }
}

/// What a caller is told once the command has been handed to the queue:
/// the pending reply where the queue took it, `RouteManagerDown` where it
/// did not.
pub fn pending_reply(sent: bool, reply: Receiver<Result<(), Error>>) -> (pending: Result<
    Receiver<Result<(), Error>>,
    Error,
>)
    ensures
        sent ==> pending == Ok::<Receiver<Result<(), Error>>, Error>(reply),
        !sent ==> pending == Err::<Receiver<Result<(), Error>>, Error>(Error::RouteManagerDown),
{
    if sent {
        Ok(reply)
    } else {
        Err(Error::RouteManagerDown)
    }
}

/// What awaiting a pending reply comes to, as a spec function.
pub open spec fn spec_reply_outcome(received: Result<Result<(), Error>, Canceled>) -> Result<
    (),
    Error,
> {
    match received {
        Ok(reply) => reply,
        Err(_) => Err(Error::ManagerChannelDown),
    }
}

/// What awaiting a pending reply comes to: the reply itself where one was
/// delivered, `ManagerChannelDown` where the command loop went away without
/// replying.
pub fn reply_outcome(received: Result<Result<(), Error>, Canceled>) -> (outcome: Result<(), Error>)
    ensures
        outcome == spec_reply_outcome(received),
{
    match received {
        Ok(reply) => reply,
        Err(_) => Err(Error::ManagerChannelDown),
    }
}

impl RouteManagerCommand {
    /// Builds the command that asks for the routes to be applied, together
    /// with the receiving end of its reply channel.
    pub fn request(routes: RouteSet) -> (request: (
        RouteManagerCommand,
        Receiver<Result<(), Error>>,
    ))
        ensures
            request.0@ == CommandView::AddRoutes(routes@),
    {
        let (reply_tx, reply_rx) = futures::channel::oneshot::channel();
        (RouteManagerCommand::AddRoutes(routes, reply_tx), reply_rx)
    }
}

/// Enqueues a request for the routes and returns its pending reply.
fn submit(tx: &UnboundedSender<RouteManagerCommand>, routes: RouteSet) -> (pending: Result<
    Receiver<Result<(), Error>>,
    Error,
>)
    ensures
        pending is Err ==> pending->Err_0 == Error::RouteManagerDown,
{
    let (command, reply) = RouteManagerCommand::request(routes);
    let sent = tx.unbounded_send(command).is_ok();
    pending_reply(sent, reply)
}

/// Manages routes through a command queue with a single consumer.
pub struct RouteManager {
    manage_tx: Option<UnboundedSender<RouteManagerCommand>>,
}

/// A manager that has just started.
pub struct Startup {
    /// The running manager.
    pub manager: RouteManager,
    /// The consuming end of the manager's queue, for the command loop.
    pub commands: UnboundedReceiver<RouteManagerCommand>,
    /// The pending reply to the request for the initial routes, or
    /// `RouteManagerDown` where the queue did not take the request. The
    /// manager counts as constructed once this reply has come and is `Ok`.
    pub initial: Result<Receiver<Result<(), Error>>, Error>,
}

/// Handle to a route manager.
#[derive(Clone)]
pub struct RouteManagerHandle {
    tx: UnboundedSender<RouteManagerCommand>,
}

impl RouteManagerHandle {
    /// Enqueues a request for the routes. The reply is pending on the
    /// returned receiver; `reply_outcome` says what awaiting it comes to.
    /// Fails with `RouteManagerDown`, and with nothing else, where the queue
    /// no longer takes commands.
    pub fn add_routes(&self, routes: RouteSet) -> (pending: Result<
        Receiver<Result<(), Error>>,
        Error,
    >)
        ensures
            pending is Err ==> pending->Err_0 == Error::RouteManagerDown,
    {
        submit(&self.tx, routes)
    }
}

impl RouteManager {
    /// The manager's state: running as long as it holds the producing end
    /// of the queue.
    pub closed spec fn state(&self) -> ManagerState {
        if self.manage_tx is Some {
            ManagerState::Running
        } else {
            ManagerState::Stopped
        }
    }

    /// Starts a manager, given whether the backend session was activated.
    /// Without a session there is no manager and no queue. With one, the
    /// manager runs, the request for the initial routes is the first
    /// command in its queue, and the consuming end of the queue is returned
    /// for the command loop.
    pub fn new(activated: bool, required_routes: RouteSet) -> (started: Result<Startup, Error>)
        ensures
            activated ==> started is Ok && started->Ok_0.manager.state() == ManagerState::Running,
            activated && started->Ok_0.initial is Err ==> started->Ok_0.initial->Err_0
                == Error::RouteManagerDown,
            !activated ==> started is Err && started->Err_0 == Error::FailedToStartManager,
    {
        if !activated {
            return Err(Error::FailedToStartManager);
        }
        let (manage_tx, manage_rx) = futures::channel::mpsc::unbounded();
        let manager = RouteManager { manage_tx: Some(manage_tx) };
        let initial = manager.add_routes(required_routes);
        Ok(Startup { manager, commands: manage_rx, initial })
    }

    /// Whether the manager is running.
    pub fn is_running(&self) -> (running: bool)
        ensures
            running == (self.state() == ManagerState::Running),
    {
        self.manage_tx.is_some()
    }

    /// A new handle to the command queue while the manager runs,
    /// `RouteManagerDown` once it has stopped.
    pub fn handle(&self) -> (handle: Result<RouteManagerHandle, Error>)
        ensures
            handle is Ok <==> handle_outcome(self.state()) is Ok,
            handle is Err ==> handle_outcome(self.state()) == Err::<(), Error>(handle->Err_0),
    {
        if let Some(tx) = &self.manage_tx {
            Ok(RouteManagerHandle { tx: tx.clone() })
        } else {
            Err(Error::RouteManagerDown)
        }
    }

    /// Stops the manager. The first call gives up the producing end of the
    /// queue, sends the shutdown command and asks for the backend session to
    /// be deactivated; any later call does nothing. Routes that were applied
    /// stay applied.
    pub fn stop(&mut self) -> (action: StopAction)
        ensures
            final(self).state() == after_stop(old(self).state()),
            action is DeactivateBackend <==> stop_acts(old(self).state()),
            action is Nothing <==> !stop_acts(old(self).state()),
    {
        if let Some(tx) = self.manage_tx.take() {
            let signalled = tx.unbounded_send(RouteManagerCommand::Shutdown).is_ok();
            StopAction::DeactivateBackend { signalled }
        } else {
            StopAction::Nothing
        }
    }

    /// Enqueues a request for the routes. The reply is pending on the
    /// returned receiver; `reply_outcome` says what awaiting it comes to.
    /// Fails with `RouteManagerDown`, and with nothing else, where the
    /// manager has stopped or the queue no longer takes commands.
    pub fn add_routes(&self, routes: RouteSet) -> (pending: Result<
        Receiver<Result<(), Error>>,
        Error,
    >)
        ensures
            self.state() == ManagerState::Stopped ==> pending is Err,
            pending is Err ==> pending->Err_0 == Error::RouteManagerDown,
    {
        if let Some(tx) = &self.manage_tx {
            submit(tx, routes)
        } else {
            Err(Error::RouteManagerDown)
        }
    }

    /// Reports the backend's answer to the removal of all applied routes.
    /// The manager's state plays no part in it.
    pub fn clear_routes(&self, removed: bool) -> (cleared: Result<(), Error>)
        ensures
            cleared == Error::spec_from_removal(removed),
    {
        if removed {
            Ok(())
        } else {
            Err(Error::ClearRoutesFailed)
        }
    }
}

/// A manager hands out handles while it runs, and answers
/// `RouteManagerDown` in the state that `stop` leaves it in, whatever the
/// state was before.
pub proof fn law_handle_fails_once_stopped(state: ManagerState)
    ensures
        handle_outcome(ManagerState::Running) == Ok::<(), Error>(()),
        handle_outcome(after_stop(state)) == Err::<(), Error>(Error::RouteManagerDown),
{
}

/// A call of `stop` that follows another sends nothing, asks for no
/// deactivation and leaves the state as it is.
pub proof fn law_second_stop_does_nothing(state: ManagerState)
    ensures
        !stop_acts(after_stop(state)),
        after_stop(after_stop(state)) == after_stop(state),
{
}

/// Once stopped, no number of further calls of `stop` asks for a
/// deactivation.
pub proof fn law_no_deactivation_once_stopped(stops: nat)
    ensures
        deactivations(ManagerState::Stopped, stops) == 0,
    decreases stops,
{
    if stops > 0 {
        law_no_deactivation_once_stopped((stops - 1) as nat);
    }
}

/// A running manager that is stopped at least once, by its owner or when
/// it is released, asks for exactly one backend deactivation, however many
/// calls of `stop` are made.
pub proof fn law_exactly_one_deactivation(stops: nat)
    requires
        stops >= 1,
    ensures
        deactivations(ManagerState::Running, stops) == 1,
{
    law_no_deactivation_once_stopped((stops - 1) as nat);
}

} // verus!
