use crate::errors::PipelineError;
use crate::user::User;
use vstd::prelude::*;

verus! {

/// The kind of webhook event the pipeline consumes.
#[derive(Clone, Copy, Debug, PartialEq, Eq, Structural)]
pub enum EventType {
    Message,
}

/// An inbound or outbound text message.
#[derive(Debug)]
pub struct TextMessage {
    pub id: Option<String>,
    pub kind: String,
    pub text: String,
    pub quote_token: Option<String>,
}

/// An outbound image message: the original URL and its preview URL.
#[derive(Debug)]
pub struct ImageMessage {
    pub kind: String,
    pub original_content_url: String,
    pub preview_image_url: String,
}

/// A platform message, text or image.
#[derive(Debug)]
pub enum Message {
    Text(TextMessage),
    Image(ImageMessage),
}

impl Message {
    /// An outbound text message.
    pub fn text(text: String, quote_token: Option<String>) -> (r: Message)
        ensures
            r matches Message::Text(t) && t.id is None && t.kind@ == "text"@ && t.text == text
                && t.quote_token == quote_token,
    {
        Message::Text(
            TextMessage { id: None, kind: String::from_str("text"), text, quote_token },
        )
    }

    /// An outbound image message.
    pub fn image(original_content_url: String, preview_image_url: String) -> (r: Message)
        ensures
            r matches Message::Image(m) && m.kind@ == "image"@ && m.original_content_url
                == original_content_url && m.preview_image_url == preview_image_url,
    {
        Message::Image(
            ImageMessage {
                kind: String::from_str("image"),
                original_content_url,
                preview_image_url,
            },
        )
    }
}

/// Where an event came from.
#[derive(Debug)]
pub struct Source {
    pub kind: String,
    pub user_id: String,
}

/// Delivery metadata of an event.
#[derive(Clone, Copy, Debug, PartialEq, Eq, Structural)]
pub struct DeliveryContext {
    pub is_redelivery: bool,
}

/// The loading-indicator request: shown in the given chat for the fixed
/// number of seconds.
#[derive(Debug)]
pub struct LoadingStart {
    pub chat_id: String,
    pub loading_seconds: i64,
}

/// One webhook event. The reply token is the one-time capability to
/// answer this event; the platform may omit it.
#[derive(Debug)]
pub struct Event {
    pub kind: EventType,
    pub message: Message,
    pub timestamp: i64,
    pub source: Source,
    pub reply_token: Option<String>,
    pub mode: String,
    pub webhook_event_id: String,
    pub delivery_context: DeliveryContext,
}

/// One webhook delivery: a destination and its ordered events.
#[derive(Debug)]
pub struct WebhookEvent {
    pub destination: String,
    pub events: Vec<Event>,
}

/// One batched reply call: all outbound messages under the one reply
/// token.
#[derive(Debug)]
pub struct ReplyMessage {
    pub reply_token: String,
    pub messages: Vec<Message>,
}

/// One push call: outbound messages addressed to a user directly.
#[derive(Debug)]
pub struct PushMessage {
    pub to: String,
    pub messages: Vec<Message>,
}

/// The first message-typed event among the events, if any.
pub open spec fn first_message_event(events: Seq<Event>) -> Option<Event>
    decreases events.len(),
{
    if events.len() == 0 {
        None
    } else if events.first().kind == EventType::Message {
        Some(events.first())
    } else {
        first_message_event(events.drop_first())
    }
}

/// Whether a conversation turn is the inbound user turn of the given
/// event: the event's text from the event's source user, carrying the
/// event's reply token, with no context and no image yet.
pub open spec fn is_inbound_of(m: crate::message::Message, ev: Event) -> bool {
    &&& ev.message matches Message::Text(t) && m.text == t.text
    &&& m.user.id == ev.source.user_id
    &&& m.from == crate::message::Actor::User
    &&& m.context is None
    &&& m.reply_token == ev.reply_token
    &&& m.image is None
}

/// Whether a platform message is the outbound form of a conversation
/// turn: an image message with the turn's URL pair where the turn carries
/// an image payload, else a text message with the turn's text.
pub open spec fn is_outbound_of(l: Message, m: crate::message::Message) -> bool {
    match m.image {
        Some(img) => l matches Message::Image(im) && im.kind@ == "image"@
            && im.original_content_url == img.url && im.preview_image_url == img.preview_url,
        None => l matches Message::Text(t) && t.kind@ == "text"@ && t.text == m.text && t.id
            is None && t.quote_token is None,
    }
}

/// The outbound form of a conversation turn.
pub fn from_message(m: &crate::message::Message) -> (r: Message)
    ensures
        is_outbound_of(r, *m),
{
    match &m.image {
        Some(img) => Message::image(img.url.clone(), img.preview_url.clone()),
        None => Message::text(m.text.clone(), None),
    }
}

/// The messaging-platform capability: holds the channel token the driver
/// sends calls under, and the bot's own user id.
#[derive(Debug)]
pub struct Line {
    pub channel_access_token: String,
    pub bot_user_id: String,
}

impl Clone for Line {
    fn clone(&self) -> (res: Self)
        ensures
            res == *self,
    {
        Line {
            channel_access_token: self.channel_access_token.clone(),
            bot_user_id: self.bot_user_id.clone(),
        }
    }
}

proof fn lemma_first_message_event_at(events: Seq<Event>, i: int)
    requires
        0 <= i < events.len(),
        events[i].kind == EventType::Message,
        forall|k: int| 0 <= k < i ==> #[trigger] events[k].kind != EventType::Message,
    ensures
        first_message_event(events) == Some(events[i]),
    decreases i,
{
    if i > 0 {
        lemma_first_message_event_at(events.drop_first(), i - 1);
    }
}

proof fn lemma_no_message_event(events: Seq<Event>)
    requires
        forall|k: int| 0 <= k < events.len() ==> #[trigger] events[k].kind != EventType::Message,
    ensures
        first_message_event(events) is None,
    decreases events.len(),
{
    if events.len() > 0 {
        lemma_no_message_event(events.drop_first());
    }
}

impl Line {
    pub fn new(channel_access_token: String, bot_user_id: String) -> (r: Line)
        ensures
            r.channel_access_token == channel_access_token,
            r.bot_user_id == bot_user_id,
    {
        Line { channel_access_token, bot_user_id }
    }

    /// The best-effort loading indicator: shown in the bot's chat for the
    /// platform's maximum of 60 seconds.
    pub fn loading_request(&self) -> (r: LoadingStart)
        ensures
            r.chat_id == self.bot_user_id,
            r.loading_seconds == 60,
    {
        LoadingStart { chat_id: self.bot_user_id.clone(), loading_seconds: 60 }
    }

    /// One batched reply: all the given messages under the one reply
    /// token.
    pub fn reply_request(&self, messages: Vec<Message>, reply_token: String) -> (r: ReplyMessage)
        ensures
            r.reply_token == reply_token,
            r.messages == messages,
    {
        ReplyMessage { reply_token, messages }
    }

    /// A reply holding one text message.
    pub fn text_reply_request(&self, chat: String, reply_token: String) -> (r: ReplyMessage)
        ensures
            r.reply_token == reply_token,
            r.messages@.len() == 1,
            r.messages@[0] matches Message::Text(t) && t.text == chat && t.kind@ == "text"@
                && t.id is None && t.quote_token is None,
    {
        let mut messages: Vec<Message> = Vec::new();
        messages.push(Message::text(chat, None));
        ReplyMessage { reply_token, messages }
    }

    /// A push call addressed to a user.
    pub fn push_request(&self, to_user_id: String, messages: Vec<Message>) -> (r: PushMessage)
        ensures
            r.to == to_user_id,
            r.messages == messages,
    {
        PushMessage { to: to_user_id, messages }
    }

    /// Extracts the inbound user turn of one message event. An inbound
    /// kind the pipeline cannot read is rejected.
    pub fn extract_message(&self, event: &Event) -> (r: Result<
        crate::message::Message,
        PipelineError,
    >)
        ensures
            event.message is Text <==> r is Ok,
            r matches Ok(m) ==> is_inbound_of(m, *event),
            r is Err ==> r == Err::<crate::message::Message, PipelineError>(
                PipelineError::UnsupportedMessage,
            ),
    {
        match &event.message {
            Message::Text(t) => Ok(
                crate::message::Message {
                    user: User { id: event.source.user_id.clone() },
                    from: crate::message::Actor::User,
                    text: t.text.clone(),
                    context: None,
                    reply_token: match &event.reply_token {
                        Some(t) => Some(t.clone()),
                        None => None,
                    },
                    image: None,
                },
            ),
            Message::Image(_) => Err(PipelineError::UnsupportedMessage),
        }
    }

    /// Picks the first message-typed event of the delivery and extracts
    /// its user turn. A delivery with no message event is rejected: the
    /// pipeline never guesses.
    pub fn get_user_message(&self, payload: WebhookEvent) -> (r: Result<
        crate::message::Message,
        PipelineError,
    >)
        ensures
            first_message_event(payload.events@) is None ==> r == Err::<
                crate::message::Message,
                PipelineError,
            >(PipelineError::NoMessageEvent),
            first_message_event(payload.events@) matches Some(ev) ==> {
                &&& (ev.message is Text <==> r is Ok)
                &&& (r matches Ok(m) ==> is_inbound_of(m, ev))
                &&& (r is Err ==> r == Err::<crate::message::Message, PipelineError>(
                    PipelineError::UnsupportedMessage,
                ))
            },
    {
        let mut i: usize = 0;
        while i < payload.events.len()
            invariant
                i <= payload.events.len(),
                forall|k: int|
                    0 <= k < i ==> #[trigger] payload.events@[k].kind != EventType::Message,
            decreases payload.events.len() - i,
        {
            match payload.events[i].kind {
                EventType::Message => {
                    proof {
                        lemma_first_message_event_at(payload.events@, i as int);
                    }
                    return self.extract_message(&payload.events[i]);
                },
            }
        }
        proof {
            lemma_no_message_event(payload.events@);
        }
        Err(PipelineError::NoMessageEvent)
    }
}

} // verus!
