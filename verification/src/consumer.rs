//! The activation consumer as a state machine: for each delivery it says
//! what to write to the registry, and acknowledges only what was written.

use crate::message::{Message, MessageView};
use crate::registry::{op_for, registry_op, RegistryOp, RegistryOpView};
use vstd::prelude::*;

verus! {

/// The step of a delivery that failed.
#[derive(Clone, Copy, Debug, PartialEq, Eq, Structural)]
pub enum ConsumeError {
    /// The payload is no activation event.
    Decode,
    /// The registry refused the write.
    Registry,
    /// The broker refused the acknowledgement.
    Acknowledge,
    /// A report came in that the consumer was not waiting for.
    OutOfTurn,
}

/// Where the consumer stands.
#[derive(Clone, Copy, Debug, PartialEq, Eq, Structural)]
pub enum ConsumerState {
    /// Waiting for a delivery.
    Ready,
    /// A write to the registry is under way.
    Writing,
    /// An acknowledgement is under way.
    Acknowledging,
    /// A step failed; the consumer handles nothing more.
    Failed(ConsumeError),
}

/// What happened outside.
#[derive(Clone, Debug, PartialEq, Eq)]
pub enum ConsumerEvent {
    /// A payload was delivered. `message` is the decoded payload, or `None`
    /// where it could not be decoded; `content` is the payload itself.
    Delivered { message: Option<Message>, content: Vec<u8> },
    /// The write to the registry ended, well or not.
    Written(bool),
    /// The acknowledgement ended, well or not.
    Acknowledged(bool),
}

/// The mathematical value of a [`ConsumerEvent`].
pub enum ConsumerEventView {
    Delivered { message: Option<MessageView>, content: Seq<u8> },
    Written(bool),
    Acknowledged(bool),
}

impl View for ConsumerEvent {
    type V = ConsumerEventView;

    open spec fn view(&self) -> ConsumerEventView {
        match self {
            ConsumerEvent::Delivered { message, content } => ConsumerEventView::Delivered {
                message: match message {
                    Some(m) => Some(m@),
                    None => None,
                },
                content: content@,
            },
            ConsumerEvent::Written(ok) => ConsumerEventView::Written(*ok),
            ConsumerEvent::Acknowledged(ok) => ConsumerEventView::Acknowledged(*ok),
        }
    }
}

/// What the caller is to do next.
#[derive(Clone, Debug, PartialEq, Eq)]
pub enum ConsumerAction {
    /// Wait for the next delivery.
    Receive,
    /// Perform this write on the registry and report how it ended.
    Write(RegistryOp),
    /// Acknowledge the delivery and report how that ended.
    Acknowledge,
    /// Stop: the delivery failed at this step and is not acknowledged.
    Halt(ConsumeError),
}

/// The mathematical value of a [`ConsumerAction`].
pub enum ConsumerActionView {
    Receive,
    Write(RegistryOpView),
    Acknowledge,
    Halt(ConsumeError),
}

impl View for ConsumerAction {
    type V = ConsumerActionView;

    open spec fn view(&self) -> ConsumerActionView {
        match self {
            ConsumerAction::Receive => ConsumerActionView::Receive,
            ConsumerAction::Write(op) => ConsumerActionView::Write(op@),
            ConsumerAction::Acknowledge => ConsumerActionView::Acknowledge,
            ConsumerAction::Halt(e) => ConsumerActionView::Halt(*e),
        }
    }
}

/// The consumer's rule. A decoded delivery is written to the registry; one
/// that cannot be decoded stops the consumer with nothing written. A write
/// that succeeded is acknowledged, unless deliveries need no
/// acknowledgement (`no_ack`); one that failed stops the consumer with
/// nothing acknowledged. After the acknowledgement the next delivery is
/// awaited. A consumer that failed stays failed.
pub open spec fn step(state: ConsumerState, no_ack: bool, event: ConsumerEventView) -> (
    ConsumerState,
    ConsumerActionView,
) {
    match (state, event) {
        (ConsumerState::Ready, ConsumerEventView::Delivered { message: Some(m), content }) => (
            ConsumerState::Writing,
            ConsumerActionView::Write(op_for(m, content)),
        ),
        (ConsumerState::Ready, ConsumerEventView::Delivered { message: None, content }) => (
            ConsumerState::Failed(ConsumeError::Decode),
            ConsumerActionView::Halt(ConsumeError::Decode),
        ),
        (ConsumerState::Writing, ConsumerEventView::Written(true)) => if no_ack {
            (ConsumerState::Ready, ConsumerActionView::Receive)
        } else {
            (ConsumerState::Acknowledging, ConsumerActionView::Acknowledge)
        },
        (ConsumerState::Writing, ConsumerEventView::Written(false)) => (
            ConsumerState::Failed(ConsumeError::Registry),
            ConsumerActionView::Halt(ConsumeError::Registry),
        ),
        (ConsumerState::Acknowledging, ConsumerEventView::Acknowledged(true)) => (
            ConsumerState::Ready,
            ConsumerActionView::Receive,
        ),
        (ConsumerState::Acknowledging, ConsumerEventView::Acknowledged(false)) => (
            ConsumerState::Failed(ConsumeError::Acknowledge),
            ConsumerActionView::Halt(ConsumeError::Acknowledge),
        ),
        (ConsumerState::Failed(e), _) => (ConsumerState::Failed(e), ConsumerActionView::Halt(e)),
        _ => (
            ConsumerState::Failed(ConsumeError::OutOfTurn),
            ConsumerActionView::Halt(ConsumeError::OutOfTurn),
        ),
    }
}

/// The consumer of activation events.
#[derive(Clone, Debug, PartialEq, Eq)]
pub struct MyConsumer {
    pub no_ack: bool,
    pub state: ConsumerState,
}

impl MyConsumer {
    /// A consumer that waits for its first delivery.
    pub fn new(no_ack: bool) -> (r: MyConsumer)
        ensures
            r.no_ack == no_ack,
            r.state == ConsumerState::Ready,
    {
        MyConsumer { no_ack, state: ConsumerState::Ready }
    }

    /// Takes in what happened and says what to do next.
    pub fn consume(&mut self, event: ConsumerEvent) -> (action: ConsumerAction)
        ensures
            final(self).no_ack == old(self).no_ack,
            (final(self).state, action@) == step(old(self).state, old(self).no_ack, event@),
    {
        let (next, action) = match (self.state, event) {
            (ConsumerState::Ready, ConsumerEvent::Delivered { message: Some(m), content }) => (
                ConsumerState::Writing,
                ConsumerAction::Write(registry_op(&m, content)),
            ),
            (ConsumerState::Ready, ConsumerEvent::Delivered { message: None, content }) => (
                ConsumerState::Failed(ConsumeError::Decode),
                ConsumerAction::Halt(ConsumeError::Decode),
            ),
            (ConsumerState::Writing, ConsumerEvent::Written(true)) => if self.no_ack {
                (ConsumerState::Ready, ConsumerAction::Receive)
            } else {
                (ConsumerState::Acknowledging, ConsumerAction::Acknowledge)
            },
            (ConsumerState::Writing, ConsumerEvent::Written(false)) => (
                ConsumerState::Failed(ConsumeError::Registry),
                ConsumerAction::Halt(ConsumeError::Registry),
            ),
            (ConsumerState::Acknowledging, ConsumerEvent::Acknowledged(true)) => (
                ConsumerState::Ready,
                ConsumerAction::Receive,
            ),
            (ConsumerState::Acknowledging, ConsumerEvent::Acknowledged(false)) => (
                ConsumerState::Failed(ConsumeError::Acknowledge),
                ConsumerAction::Halt(ConsumeError::Acknowledge),
            ),
            (ConsumerState::Failed(e), _) => (ConsumerState::Failed(e), ConsumerAction::Halt(e)),
            _ => (
                ConsumerState::Failed(ConsumeError::OutOfTurn),
                ConsumerAction::Halt(ConsumeError::OutOfTurn),
            ),
        };
        self.state = next;
        action
    }
}

/// A delivery is acknowledged only after its write to the registry
/// succeeded, and only where deliveries are to be acknowledged.
pub proof fn lemma_acknowledge_follows_write(
    state: ConsumerState,
    no_ack: bool,
    event: ConsumerEventView,
)
    ensures
        step(state, no_ack, event).1 is Acknowledge <==> state == ConsumerState::Writing && event
            == ConsumerEventView::Written(true) && !no_ack,
{
}

/// The registry is written only for a delivery that could be decoded, and
/// then with the write that its event asks for.
pub proof fn lemma_write_follows_decoding(
    state: ConsumerState,
    no_ack: bool,
    event: ConsumerEventView,
)
    ensures
        step(state, no_ack, event).1 matches ConsumerActionView::Write(op) ==> state
            == ConsumerState::Ready && (event matches ConsumerEventView::Delivered {
            message: Some(m),
            content,
        } && op == op_for(m, content)),
        state == ConsumerState::Ready && (event matches ConsumerEventView::Delivered {
            message: None,
            ..
        }) ==> step(state, no_ack, event).1 == ConsumerActionView::Halt(ConsumeError::Decode),
{
}

/// A consumer that failed handles nothing more.
pub proof fn lemma_failure_is_final(e: ConsumeError, no_ack: bool, event: ConsumerEventView)
    ensures
        step(ConsumerState::Failed(e), no_ack, event) == (
            ConsumerState::Failed(e),
            ConsumerActionView::Halt(e),
        ),
{
}

} // verus!
