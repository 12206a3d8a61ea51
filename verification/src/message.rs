use crate::json::{json_document, json_quoted, parse, push_quoted, Json};
use crate::number::{decimal, push_decimal};
use crate::text::{push_str, string_of};
use vstd::prelude::*;

verus! {

/// A chat message taken from an inbound event. `group` is set exactly when
/// the message was posted in a group.
pub struct IncomingMessage {
    pub msg: String,
    pub group: Option<u64>,
    pub sender: u64,
}

pub struct MessageView {
    pub text: Seq<char>,
    pub group: Option<u64>,
    pub sender: u64,
}

impl View for IncomingMessage {
    type V = MessageView;

    open spec fn view(&self) -> MessageView {
        MessageView { text: self.msg@, group: self.group, sender: self.sender }
    }
}

/// One reply on its way out. Exactly one of the two targets is set.
pub struct OutboundReply {
    pub text: String,
    pub target_user_id: Option<u64>,
    pub target_group_id: Option<u64>,
}

pub struct ReplyView {
    pub text: Seq<char>,
    pub target_user_id: Option<u64>,
    pub target_group_id: Option<u64>,
}

impl View for OutboundReply {
    type V = ReplyView;

    open spec fn view(&self) -> ReplyView {
        ReplyView {
            text: self.text@,
            target_user_id: self.target_user_id,
            target_group_id: self.target_group_id,
        }
    }
}

/// The user id that an event names as its sender: the member `user_id`, an
/// unsigned integer, of the member `sender`, an object.
pub open spec fn sender_id(event: Json) -> Option<u64> {
    match event.member("sender"@) {
        Some(Json::Object(fields)) => match Json::Object(fields).member("user_id"@) {
            Some(id) => id.unsigned(),
            None => None,
        },
        _ => None,
    }
}

/// The group that an event names: its member `group_id`, where that is an
/// unsigned integer.
pub open spec fn group_id(event: Json) -> Option<u64> {
    match event.member("group_id"@) {
        Some(id) => id.unsigned(),
        None => None,
    }
}

/// The message text of an event: its member `message`, a string.
pub open spec fn message_text(event: Json) -> Option<Seq<char>> {
    match event.member("message"@) {
        Some(text) => text.text(),
        None => None,
    }
}

/// The chat message that an event carries. An event is a message when it is
/// an object with a message text and a sender id; anything else is some
/// other kind of event and carries none.
pub open spec fn decoded(event: Json) -> Option<MessageView> {
    if event is Object && message_text(event) is Some && sender_id(event) is Some {
        Some(
            MessageView {
                text: message_text(event)->0,
                group: group_id(event),
                sender: sender_id(event)->0,
            },
        )
    } else {
        None
    }
}

/// The chat message that an inbound frame carries, where it carries one.
pub open spec fn decoded_frame(frame: Seq<char>) -> Option<MessageView> {
    match json_document(frame) {
        Some(event) => decoded(event),
        None => None,
    }
}

pub open spec fn option_view(m: Option<IncomingMessage>) -> Option<MessageView> {
    match m {
        Some(m) => Some(m@),
        None => None,
    }
}

/// Reads a chat message out of a parsed event.
pub fn decode_event(event: &Json) -> (message: Option<IncomingMessage>)
    ensures
        option_view(message) == decoded(*event),
        sender_id(*event) is None ==> message is None,
{
    let text = match event.get("message") {
        Some(value) => match value.as_text() {
            Some(text) => text,
            None => { return None; },
        },
        None => { return None; },
    };
    let sender = match event.get("sender") {
        Some(value) => match value {
            Json::Object(_) => match value.get("user_id") {
                Some(id) => match id.as_u64() {
                    Some(id) => id,
                    None => { return None; },
                },
                None => { return None; },
            },
            _ => { return None; },
        },
        None => { return None; },
    };
    let group = match event.get("group_id") {
        Some(id) => id.as_u64(),
        None => None,
    };
    Some(IncomingMessage { msg: text.clone(), group, sender })
}

/// Reads a chat message out of an inbound frame. A frame that is not JSON,
/// or not a message, yields nothing.
pub fn decode_frame(frame: &str) -> (message: Option<IncomingMessage>)
    ensures
        option_view(message) == decoded_frame(frame@),
{
    match parse(frame) {
        Some(event) => decode_event(&event),
        None => None,
    }
}

/// The reply with text `text` to a message from `sender` in `group`: it
/// goes to the group where there is one, and to the sender otherwise.
pub open spec fn addressed(group: Option<u64>, sender: u64, text: Seq<char>) -> ReplyView {
    ReplyView {
        text,
        target_user_id: match group {
            None => Some(sender),
            Some(_) => None,
        },
        target_group_id: group,
    }
}

impl IncomingMessage {
    /// The reply to this message that says `text`.
    pub fn reply(&self, text: String) -> (reply: OutboundReply)
        ensures
            reply@ == addressed(self.group, self.sender, text@),
            reply.well_addressed(),
            self.group is None ==> reply.target_user_id == Some(self.sender)
                && reply.target_group_id is None,
            self.group is Some ==> reply.target_group_id == self.group
                && reply.target_user_id is None,
    {
        OutboundReply {
            text,
            target_user_id: match self.group {
                None => Some(self.sender),
                Some(_) => None,
            },
            target_group_id: self.group,
        }
    }

    /// The replies to this message that say `texts`, in order.
    pub fn replies(&self, texts: Vec<String>) -> (replies: Vec<OutboundReply>)
        ensures
            replies@.len() == texts@.len(),
            forall|i: int|
                0 <= i < texts@.len() ==> (#[trigger] replies@[i])@ == addressed(
                    self.group,
                    self.sender,
                    texts@[i]@,
                ),
    {
        let mut out: Vec<OutboundReply> = Vec::new();
        let mut i: usize = 0;
        while i < texts.len()
            invariant
                i <= texts.len(),
                out@.len() == i,
                forall|j: int|
                    0 <= j < i ==> (#[trigger] out@[j])@ == addressed(
                        self.group,
                        self.sender,
                        texts@[j]@,
                    ),
            decreases texts.len() - i,
        {
            out.push(self.reply(texts[i].clone()));
            i += 1;
        }
        out
    }
}

/// A target as JSON: the id in decimal, or `null`.
pub open spec fn target_json(target: Option<u64>) -> Seq<char> {
    match target {
        Some(id) => decimal(id as nat),
        None => "null"@,
    }
}

/// The outbound frame for a reply: a `send_msg` action whose parameters are
/// the two targets and the text.
pub open spec fn frame_of(reply: ReplyView) -> Seq<char> {
    "{\"action\":\"send_msg\",\"params\":{\"user_id\":"@ + target_json(reply.target_user_id)
        + ",\"group_id\":"@ + target_json(reply.target_group_id) + ",\"message\":"@ + json_quoted(
        reply.text,
    ) + "}}"@
}

fn push_target(out: &mut Vec<char>, target: Option<u64>)
    ensures
        final(out)@ == old(out)@ + target_json(target),
{
    match target {
        Some(id) => push_decimal(out, id as u128),
        None => push_str(out, "null"),
    }
}

impl OutboundReply {
    /// Whether exactly one target is set.
    pub open spec fn well_addressed(&self) -> bool {
        self.target_user_id is Some <==> self.target_group_id is None
    }

    /// The frame that carries this reply.
    pub fn encode(&self) -> (frame: String)
        ensures
            frame@ == frame_of(self@),
    {
        let mut out: Vec<char> = Vec::new();
        push_str(&mut out, "{\"action\":\"send_msg\",\"params\":{\"user_id\":");
        push_target(&mut out, self.target_user_id);
        push_str(&mut out, ",\"group_id\":");
        push_target(&mut out, self.target_group_id);
        push_str(&mut out, ",\"message\":");
        push_quoted(&mut out, self.text.as_str());
        push_str(&mut out, "}}");
        assert(out@ =~= frame_of(self@));
        string_of(&out)
    }
}

/// A message without a group is answered to its sender alone, and a message
/// from a group to that group alone.
pub proof fn lemma_reply_mirrors_addressing(group: Option<u64>, sender: u64, text: Seq<char>)
    ensures
        group is None ==> addressed(group, sender, text).target_user_id == Some(sender)
            && addressed(group, sender, text).target_group_id is None,
        group is Some ==> addressed(group, sender, text).target_group_id == group && addressed(
            group,
            sender,
            text,
        ).target_user_id is None,
{
}

/// An event that names no sender id carries no message.
pub proof fn lemma_no_sender_no_message(event: Json)
    requires
        sender_id(event) is None,
    ensures
        decoded(event) is None,
{
}

/// A frame that names no sender id carries no message, whatever else it
/// holds.
pub proof fn lemma_frame_without_sender_is_dropped(frame: Seq<char>)
    requires
        json_document(frame) matches Some(event) ==> sender_id(event) is None,
    ensures
        decoded_frame(frame) is None,
{
}

} // verus!
