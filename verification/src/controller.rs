//! The thread continuation controller.
//!
//! One controller handles one press of a control, from the token that the
//! control hands back to the delivery of the post it asked for. The
//! controller decides; the caller does the work outside: it looks up the next
//! post of the thread, fetches the post, delivers the response, and hands
//! each result back as an event. A controller starts idle, resolves, and is
//! completed; a new press starts a new controller.

use vstd::prelude::*;
use vstd::string::StringExecFns;
use crate::delivery::{Message, MessageView};
use crate::plan::{continuation_intent, continuation_of, plan_of};
use crate::post::PostView;
use crate::response::{
    positioned, respond_at, response_to, FetchOutcome, FetchOutcomeView, Response, ResponseView,
};
use crate::token::{decode, decoded, lemma_decode_encode, Intent};

verus! {

/// The notice that the thread has no post at the position asked for.
pub const THREAD_NOT_FOUND_NOTICE: &'static str = "Thread not found 🤷‍♂️";

/// To whom the response to a press goes.
#[derive(Clone, Copy, Debug, PartialEq, Eq, Structural)]
pub enum Audience {
    /// The user who pressed the control.
    Presser,
    /// The chat of the message that showed the control.
    Chat,
}

/// What a resolving controller waits for.
#[derive(Clone, Copy, Debug, PartialEq, Eq, Structural)]
pub enum Awaited {
    /// The post of the thread at the position asked for.
    Position,
    /// The data of the post to deliver.
    Post,
}

/// The state of a controller.
#[derive(Clone, Copy, Debug, PartialEq, Eq, Structural)]
pub enum Controller {
    /// No control has been pressed yet.
    Idle,
    /// The press is being resolved.
    Resolving {
        awaited: Awaited,
        /// The position that follows the post to deliver.
        next_index: u16,
        /// The message that the response answers.
        reply_to: Option<i32>,
        audience: Audience,
    },
    /// The press has been dealt with.
    Completed,
}

/// What happened outside.
#[derive(Clone, Debug, PartialEq, Eq)]
pub enum Event {
    /// A control was pressed. `message` is the message that showed the
    /// control, where it is still at hand.
    Pressed { token: String, message: Option<i32> },
    /// The thread was asked for the post at the position: it has this post,
    /// or none.
    Resolved(Option<u64>),
    /// The post was fetched, or could not be.
    Fetched(FetchOutcome),
}

/// The view of an [`Event`].
pub enum EventView {
    Pressed { token: Seq<char>, message: Option<i32> },
    Resolved(Option<u64>),
    Fetched(FetchOutcomeView),
}

impl View for Event {
    type V = EventView;

    open spec fn view(&self) -> EventView {
        match self {
            Event::Pressed { token, message } => EventView::Pressed {
                token: token@,
                message: *message,
            },
            Event::Resolved(found) => EventView::Resolved(*found),
            Event::Fetched(outcome) => EventView::Fetched(outcome@),
        }
    }
}

/// What the caller of a controller does next.
#[derive(Clone, Debug, PartialEq, Eq)]
pub enum Command {
    /// Nothing. The user is told nothing either.
    Ignore,
    /// Take the controls off the pressed message, whether or not that
    /// succeeds; then ask the thread for the post at `position` and report
    /// what it has.
    ClearAndResolve { conversation_id: u64, author_id: u64, position: u8 },
    /// Fetch the post and report the outcome.
    Fetch { post_id: u64 },
    /// Deliver the response.
    Deliver { response: Response, reply_to: Option<i32>, audience: Audience },
    /// Send the notice; its failure is the result of the press.
    Notify { notice: Message, audience: Audience },
}

/// The view of a [`Command`].
pub enum CommandView {
    Ignore,
    ClearAndResolve { conversation_id: u64, author_id: u64, position: u8 },
    Fetch { post_id: u64 },
    Deliver { response: ResponseView, reply_to: Option<i32>, audience: Audience },
    Notify { notice: MessageView, audience: Audience },
}

impl View for Command {
    type V = CommandView;

    open spec fn view(&self) -> CommandView {
        match self {
            Command::Ignore => CommandView::Ignore,
            Command::ClearAndResolve { conversation_id, author_id, position } => {
                CommandView::ClearAndResolve {
                    conversation_id: *conversation_id,
                    author_id: *author_id,
                    position: *position,
                }
            },
            Command::Fetch { post_id } => CommandView::Fetch { post_id: *post_id },
            Command::Deliver { response, reply_to, audience } => CommandView::Deliver {
                response: response@,
                reply_to: *reply_to,
                audience: *audience,
            },
            Command::Notify { notice, audience } => CommandView::Notify {
                notice: notice@,
                audience: *audience,
            },
        }
    }
}

/// The notice that the thread has no post at the position asked for: plain
/// text without notification, in answer to the pressed message.
pub open spec fn thread_not_found_message(reply_to: Option<i32>) -> MessageView {
    MessageView::Text {
        text: THREAD_NOT_FOUND_NOTICE@,
        control: None,
        rich: false,
        silent: true,
        link_preview: true,
        reply_to,
    }
}

/// What a press leads to.
///
/// A token that does not decode is ignored. A press that asks for the bundle
/// of a post has the post fetched, for the user who pressed. A press that
/// asks for the next post of a thread needs the message that showed the
/// control: the response answers it, in its chat; without that message the
/// press is ignored.
pub open spec fn on_press(token: Seq<char>, message: Option<i32>) -> (Controller, CommandView) {
    match decoded(token) {
        Err(_) => (Controller::Completed, CommandView::Ignore),
        Ok(Intent::ShowBundle { post_id }) => (
            Controller::Resolving {
                awaited: Awaited::Post,
                next_index: 1,
                reply_to: None,
                audience: Audience::Presser,
            },
            CommandView::Fetch { post_id },
        ),
        Ok(Intent::AdvanceThread { conversation_id, author_id, position }) => match message {
            None => (Controller::Completed, CommandView::Ignore),
            Some(id) => (
                Controller::Resolving {
                    awaited: Awaited::Position,
                    next_index: (position + 1) as u16,
                    reply_to: Some(id),
                    audience: Audience::Chat,
                },
                CommandView::ClearAndResolve { conversation_id, author_id, position },
            ),
        },
    }
}

/// The state and the command that follow from `event` in `state`.
///
/// - An idle controller takes a press.
/// - A controller that waits for the position takes what the thread has
///   there: the post is fetched, or the user is told that there is none.
/// - A controller that waits for the post takes the outcome of the fetch:
///   the post, set to continue at the position after its own, is classified
///   and handed to the delivery.
/// - Any other event is ignored and leaves the state as it is; a completed
///   controller takes none.
pub open spec fn react(state: Controller, event: EventView) -> (Controller, CommandView) {
    match (state, event) {
        (Controller::Idle, EventView::Pressed { token, message }) => on_press(token, message),
        (
            Controller::Resolving { awaited: Awaited::Position, next_index, reply_to, audience },
            EventView::Resolved(found),
        ) => match found {
            Some(post_id) => (
                Controller::Resolving { awaited: Awaited::Post, next_index, reply_to, audience },
                CommandView::Fetch { post_id },
            ),
            None => (
                Controller::Completed,
                CommandView::Notify { notice: thread_not_found_message(reply_to), audience },
            ),
        },
        (
            Controller::Resolving { awaited: Awaited::Post, next_index, reply_to, audience },
            EventView::Fetched(outcome),
        ) => (
            Controller::Completed,
            CommandView::Deliver {
                response: response_to(positioned(outcome, next_index)),
                reply_to,
                audience,
            },
        ),
        _ => (state, CommandView::Ignore),
    }
}

/// A completed controller takes no event: whatever happens, it stays
/// completed and asks for nothing.
pub proof fn lemma_completed_is_terminal(event: EventView)
    ensures
        react(Controller::Completed, event) == (Controller::Completed, CommandView::Ignore),
{
}

/// A press whose token does not decode is a no-op: the controller is
/// completed at once, and nothing is asked for.
pub proof fn lemma_undecodable_press_is_ignored(token: Seq<char>, message: Option<i32>)
    requires
        decoded(token) is Err,
    ensures
        react(Controller::Idle, EventView::Pressed { token, message }) == (
            Controller::Completed,
            CommandView::Ignore,
        ),
{
}

/// A thread is continued from its token alone.
///
/// Take the continuation control of any post. When it is pressed on the
/// message `message`, the thread is asked for the post at the position that
/// the post named as its next; and when the thread has the post `found`
/// there, and `fetched` is what the fetch of it gave, then what is delivered,
/// in answer to `message`, is the plan of that post as one that continues at
/// the position after.
pub proof fn lemma_thread_continues(
    post: PostView,
    message: i32,
    found: u64,
    fetched: PostView,
)
    requires
        post.has_next(),
    ensures
        ({
            let control = continuation_of(post)->Some_0;
            let pressed = react(
                Controller::Idle,
                EventView::Pressed { token: control.token, message: Some(message) },
            );
            let resolved = react(pressed.0, EventView::Resolved(Some(found)));
            let delivered = react(
                resolved.0,
                EventView::Fetched(FetchOutcomeView::Found(fetched)),
            );
            &&& pressed.1 == CommandView::ClearAndResolve {
                conversation_id: post.conversation_id,
                author_id: post.author_id,
                position: post.next_index as u8,
            }
            &&& resolved.1 == CommandView::Fetch { post_id: found }
            &&& delivered.0 == Controller::Completed
            &&& delivered.1 == CommandView::Deliver {
                response: ResponseView::Deliver(
                    plan_of(PostView { next_index: (post.next_index + 1) as u16, ..fetched }),
                ),
                reply_to: Some(message),
                audience: Audience::Chat,
            }
        }),
{
    lemma_decode_encode(continuation_intent(post));
}

impl Controller {
    /// A controller for one press.
    pub fn new() -> (controller: Controller)
        ensures
            controller == Controller::Idle,
    {
        Controller::Idle
    }

    /// Takes a press on a control.
    fn press(token: &str, message: Option<i32>) -> (r: (Controller, Command))
        ensures
            (r.0, r.1@) == on_press(token@, message),
    {
        match decode(token) {
            Err(_) => (Controller::Completed, Command::Ignore),
            Ok(Intent::ShowBundle { post_id }) => (
                Controller::Resolving {
                    awaited: Awaited::Post,
                    next_index: 1,
                    reply_to: None,
                    audience: Audience::Presser,
                },
                Command::Fetch { post_id },
            ),
            Ok(Intent::AdvanceThread { conversation_id, author_id, position }) => match message {
                None => (Controller::Completed, Command::Ignore),
                Some(id) => (
                    Controller::Resolving {
                        awaited: Awaited::Position,
                        next_index: position as u16 + 1,
                        reply_to: Some(id),
                        audience: Audience::Chat,
                    },
                    Command::ClearAndResolve { conversation_id, author_id, position },
                ),
            },
        }
    }

    /// Takes an event and says what is to be done next.
    pub fn handle(self, event: Event) -> (r: (Controller, Command))
        ensures
            (r.0, r.1@) == react(self, event@),
    {
        match (self, event) {
            (Controller::Idle, Event::Pressed { token, message }) => Controller::press(
                token.as_str(),
                message,
            ),
            (
                Controller::Resolving { awaited: Awaited::Position, next_index, reply_to, audience },
                Event::Resolved(found),
            ) => match found {
                Some(post_id) => (
                    Controller::Resolving { awaited: Awaited::Post, next_index, reply_to, audience },
                    Command::Fetch { post_id },
                ),
                None => {
                    let notice = Message::Text {
                        text: String::from_str(THREAD_NOT_FOUND_NOTICE),
                        control: None,
                        rich: false,
                        silent: true,
                        link_preview: true,
                        reply_to,
                    };
                    (Controller::Completed, Command::Notify { notice, audience })
                },
            },
            (
                Controller::Resolving { awaited: Awaited::Post, next_index, reply_to, audience },
                Event::Fetched(outcome),
            ) => (
                Controller::Completed,
                Command::Deliver { response: respond_at(outcome, next_index), reply_to, audience },
            ),
            (state, _) => (state, Command::Ignore),
        }
    }
}

} // verus!
