use crate::message::{addressed, frame_of, IncomingMessage, MessageView, OutboundReply};
use crate::router::{admissible, route, routed, Draws, Event};
use crate::text::views;
use futures_channel::mpsc::UnboundedSender;
use vstd::prelude::*;

verus! {

/// `futures_channel::mpsc::UnboundedSender`, the producing side of the
/// outbound queue. Any number of producers may hold one; what the queue
/// holds at any moment is not known to them.
#[verifier::external_type_specification]
#[verifier::external_body]
#[verifier::reject_recursive_types(T)]
pub struct ExUnboundedSender<T>(UnboundedSender<T>);

/// A frame that the queue did not take, with its place among the frames
/// that were offered and the reason that the queue gave.
pub struct Undelivered {
    pub index: usize,
    pub frame: String,
    pub cause: String,
}

/// `UnboundedSender::unbounded_send`: offers a frame to the queue. The
/// queue takes it unless its receiving side is gone; then the error's
/// message comes back. Which of the two happens is up to the other side.
#[verifier::external_body]
fn offer(queue: &UnboundedSender<String>, frame: String) -> (refusal: Option<String>)
{
    match queue.unbounded_send(frame) {
        Ok(()) => None,
        Err(error) => Some(error.to_string()),
    }
}

/// The record of an offer: nothing for a frame that was taken, and the
/// frame with its place and the reason for one that was refused.
pub fn outcome_of(index: usize, frame: &String, refusal: Option<String>) -> (failure: Option<
    Undelivered,
>)
    ensures
        match refusal {
            Some(cause) => failure matches Some(u) && u.index == index && u.frame@ == frame@
                && u.cause@ == cause@,
            None => failure is None,
        },
{
    match refusal {
        Some(cause) => Some(Undelivered { index, frame: frame.clone(), cause }),
        None => None,
    }
}

/// Whether `failures` name frames among `frames`, each with its own place,
/// in the order in which the frames were offered.
pub open spec fn drawn_from(frames: Seq<Seq<char>>, failures: Seq<Undelivered>) -> bool {
    &&& forall|k: int|
        0 <= k < failures.len() ==> (#[trigger] failures[k]).index < frames.len()
            && failures[k].frame@ == frames[failures[k].index as int]
    &&& forall|j: int, k: int|
        0 <= j < k < failures.len() ==> (#[trigger] failures[j]).index < (
        #[trigger] failures[k]).index
}

/// Offers each frame to the queue, in order, and goes on after a refusal.
/// Returns the frames that the queue refused.
pub fn deliver(queue: &UnboundedSender<String>, frames: &Vec<String>) -> (failures: Vec<
    Undelivered,
>)
    ensures
        drawn_from(views(frames@), failures@),
{
    let mut failures: Vec<Undelivered> = Vec::new();
    let mut i: usize = 0;
    while i < frames.len()
        invariant
            i <= frames.len(),
            drawn_from(views(frames@), failures@),
            forall|k: int| 0 <= k < failures@.len() ==> (#[trigger] failures@[k]).index < i,
        decreases frames.len() - i,
    {
        let refusal = offer(queue, frames[i].clone());
        match outcome_of(i, &frames[i], refusal) {
            Some(failure) => {
                failures.push(failure);
            },
            None => {},
        }
        i += 1;
    }
    failures
}

/// The frames that carry the replies `texts` to a message.
pub open spec fn frames_for(message: MessageView, texts: Seq<Seq<char>>) -> Seq<Seq<char>> {
    Seq::new(
        texts.len(),
        |i: int| frame_of(addressed(message.group, message.sender, texts[i])),
    )
}

/// The frames that carry the replies, in order.
pub fn encode_all(replies: &Vec<OutboundReply>) -> (frames: Vec<String>)
    ensures
        frames@.len() == replies@.len(),
        forall|i: int| 0 <= i < replies@.len() ==> (#[trigger] frames@[i])@ == frame_of(replies@[i]@),
{
    let mut frames: Vec<String> = Vec::new();
    let mut i: usize = 0;
    while i < replies.len()
        invariant
            i <= replies.len(),
            frames@.len() == i,
            forall|j: int| 0 <= j < i ==> (#[trigger] frames@[j])@ == frame_of(replies@[j]@),
        decreases replies.len() - i,
    {
        frames.push(replies[i].encode());
        i += 1;
    }
    frames
}

/// Answers a message: routes it, addresses each reply as the message was
/// addressed, and offers the frames to the queue in order. Returns the
/// frames that the queue refused.
pub fn handle_message(
    incoming_message: &IncomingMessage,
    event: &Event,
    tx: &UnboundedSender<String>,
) -> (failures: Vec<Undelivered>)
    ensures
        exists|draws: Draws| #[trigger]
            admissible(incoming_message@, *event, draws) && drawn_from(
                frames_for(incoming_message@, routed(incoming_message@, *event, draws)),
                failures@,
            ),
{
    let messages = route(incoming_message, event);
    let ghost draws = choose|draws: Draws| #[trigger]
        admissible(incoming_message@, *event, draws) && views(messages@) == routed(
            incoming_message@,
            *event,
            draws,
        );
    let ghost texts = views(messages@);
    let replies = incoming_message.replies(messages);
    let frames = encode_all(&replies);
    assert(views(frames@) =~= frames_for(incoming_message@, texts));
    let failures = deliver(tx, &frames);
    assert(admissible(incoming_message@, *event, draws) && drawn_from(
        frames_for(incoming_message@, routed(incoming_message@, *event, draws)),
        failures@,
    ));
    failures
}

} // verus!
