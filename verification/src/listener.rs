//! The command loop's decisions: what to do with what the queue hands over.

use vstd::prelude::*;
use futures::channel::oneshot::Sender;
use crate::backend::{backend_views, translated_all, BackendRoute, BackendRouteView};
use crate::error::{BackendError, Error};
use crate::manager::{CommandView, RouteManagerCommand};

verus! {

/// The states of the command loop. It starts in `Listening`; `Terminated`
/// is final.
#[derive(Clone, Copy, Debug, PartialEq, Eq, Hash, Structural)]
pub enum ListenerState {
    /// Waiting for the next command.
    Listening,
    /// A bulk apply is with the backend, or its answer is on its way.
    Processing,
    /// The loop has ended.
    Terminated,
}

impl ListenerState {
    /// The state once the answer to a bulk apply has been handed over.
    pub open spec fn spec_after_reply(self) -> ListenerState {
        match self {
            ListenerState::Processing => ListenerState::Listening,
            ListenerState::Listening => ListenerState::Listening,
            ListenerState::Terminated => ListenerState::Terminated,
        }
    }

    /// The state once the answer to a bulk apply has been handed over: the
    /// loop listens again, unless it has ended.
    pub fn after_reply(self) -> (state: ListenerState)
        ensures
            state == self.spec_after_reply(),
    {
        match self {
            ListenerState::Processing => ListenerState::Listening,
            ListenerState::Listening => ListenerState::Listening,
            ListenerState::Terminated => ListenerState::Terminated,
        }
    }
}

/// What the command loop does next.
#[derive(Debug)]
pub enum ListenerAction {
    /// Hand the routes to the backend as one bulk apply, then answer
    /// through `reply` with `respond`, and listen again.
    Apply { routes: Vec<BackendRoute>, reply: Sender<Result<(), Error>> },
    /// Leave the loop: nothing more is taken from the queue.
    Exit,
}

/// An action without its reply channel.
pub ghost enum ActionView {
    Apply(Seq<BackendRouteView>),
    Exit,
}

impl View for ListenerAction {
    type V = ActionView;

    open spec fn view(&self) -> ActionView {
        match self {
            ListenerAction::Apply { routes, reply } => ActionView::Apply(backend_views(routes@)),
            ListenerAction::Exit => ActionView::Exit,
        }
    }
}

impl ListenerAction {
    /// The state that the loop enters from `Listening` with the action.
    pub open spec fn spec_next_state(&self) -> ListenerState {
        match self {
            ListenerAction::Apply { .. } => ListenerState::Processing,
            ListenerAction::Exit => ListenerState::Terminated,
        }
    }

    /// The state that the loop enters from `Listening` with the action.
    pub fn next_state(&self) -> (state: ListenerState)
        ensures
            state == self.spec_next_state(),
    {
        match self {
            ListenerAction::Apply { .. } => ListenerState::Processing,
            ListenerAction::Exit => ListenerState::Terminated,
        }
    }
}

/// The view of what the queue hands over: a command, or nothing once every
/// producing end is gone.
pub open spec fn event_view(event: Option<RouteManagerCommand>) -> Option<CommandView> {
    match event {
        Some(command) => Some(command@),
        None => None,
    }
}

/// The action that an event calls for: a request is answered by one bulk
/// apply of exactly its routes, translated; the shutdown command and the end
/// of the queue end the loop.
pub open spec fn action_for(event: Option<CommandView>) -> ActionView {
    match event {
        Some(CommandView::AddRoutes(routes)) => ActionView::Apply(translated_all(routes)),
        Some(CommandView::Shutdown) => ActionView::Exit,
        None => ActionView::Exit,
    }
}

/// The bulk applies that the backend sees while the loop drains a queue,
/// first command first.
pub open spec fn backend_calls(queue: Seq<CommandView>) -> Seq<Seq<BackendRouteView>>
    decreases queue.len(),
{
    if queue.len() == 0 {
        Seq::empty()
    } else {
        match action_for(Some(queue[0])) {
            ActionView::Apply(routes) => seq![routes] + backend_calls(queue.drop_first()),
            ActionView::Exit => Seq::empty(),
        }
    }
}

/// Whether no shutdown command stands among the first `count` commands.
pub open spec fn all_requests(queue: Seq<CommandView>, count: int) -> bool {
    forall|k: int| 0 <= k < count ==> (#[trigger] queue[k]) is AddRoutes
}

/// Decides what the loop does with what the queue handed over.
pub fn on_event(event: Option<RouteManagerCommand>) -> (action: ListenerAction)
    ensures
        action@ == action_for(event_view(event)),
        event matches Some(RouteManagerCommand::AddRoutes(_, tx)) ==> action->reply == tx,
{
    match event {
        Some(RouteManagerCommand::AddRoutes(routes, tx)) => {
            let backend_routes = BackendRoute::translate_all(&routes);
            ListenerAction::Apply { routes: backend_routes, reply: tx }
        },
        Some(RouteManagerCommand::Shutdown) => ListenerAction::Exit,
        None => ListenerAction::Exit,
    }
}

/// Answers the caller of a request with the backend's verdict on its bulk
/// apply. Where the caller has gone, the undelivered answer comes back and
/// may be dropped: that is no fault of the loop.
pub fn respond(reply: Sender<Result<(), Error>>, outcome: Result<(), BackendError>) -> (undelivered:
    Option<Result<(), Error>>)
    ensures
        undelivered is Some ==> undelivered == Some(Error::spec_from_backend(outcome)),
{
    undelivered_answer(reply.send(Error::from_backend(outcome)))
}

/// What is left in the loop's hands after an attempt to deliver an answer:
/// nothing where the caller took it, the answer itself where the caller had
/// gone.
pub open spec fn spec_undelivered_answer(sent: Result<(), Result<(), Error>>) -> Option<
    Result<(), Error>,
> {
    match sent {
        Ok(()) => None,
        Err(answer) => Some(answer),
    }
}

/// Tells a delivered answer from one that came back because its caller had
/// gone. An answer that came back is no error of the loop.
pub fn undelivered_answer(sent: Result<(), Result<(), Error>>) -> (undelivered: Option<
    Result<(), Error>,
>)
    ensures
        undelivered == spec_undelivered_answer(sent),
{
    match sent {
        Ok(()) => None,
        Err(answer) => Some(answer),
    }
}

/// As long as no shutdown command has come, the backend's call for a
/// request holds exactly the routes of that request, translated, and it
/// stands among the calls where the request stood in the queue.
pub proof fn law_each_call_is_the_submitted_set(queue: Seq<CommandView>, i: int)
    requires
        0 <= i < queue.len(),
        all_requests(queue, i + 1),
    ensures
        i < backend_calls(queue).len(),
        backend_calls(queue)[i] == translated_all(queue[i]->AddRoutes_0),
    decreases i,
{
    assert(queue[0] is AddRoutes);
    if i > 0 {
        let rest = queue.drop_first();
        assert forall|k: int| 0 <= k < i implies (#[trigger] rest[k]) is AddRoutes by {
            assert(queue[k + 1] is AddRoutes);
        }
        law_each_call_is_the_submitted_set(rest, i - 1);
    }
}

/// Of two requests in a queue, the one enqueued first is applied first, and
/// each in a call of its own: no call mixes the routes of the two.
pub proof fn law_calls_keep_queue_order(queue: Seq<CommandView>, first: int, second: int)
    requires
        0 <= first < second < queue.len(),
        all_requests(queue, second + 1),
    ensures
        second < backend_calls(queue).len(),
        backend_calls(queue)[first] == translated_all(queue[first]->AddRoutes_0),
        backend_calls(queue)[second] == translated_all(queue[second]->AddRoutes_0),
{
    law_each_call_is_the_submitted_set(queue, first);
    law_each_call_is_the_submitted_set(queue, second);
}

/// The loop ends at the first shutdown command: the backend sees one call
/// for each request before it, and none for what was enqueued after it.
pub proof fn law_nothing_after_shutdown(queue: Seq<CommandView>, at: int)
    requires
        0 <= at < queue.len(),
        all_requests(queue, at),
        queue[at] is Shutdown,
    ensures
        backend_calls(queue).len() == at,
    decreases at,
{
    if at > 0 {
        assert(queue[0] is AddRoutes);
        let rest = queue.drop_first();
        assert forall|k: int| 0 <= k < at - 1 implies (#[trigger] rest[k]) is AddRoutes by {
            assert(queue[k + 1] is AddRoutes);
        }
        law_nothing_after_shutdown(rest, at - 1);
    }
}

} // verus!
