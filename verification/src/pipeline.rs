//! The conversation orchestrator: one webhook delivery runs as a state
//! machine. Every decision the pipeline takes is the verified `step`
//! function; the outside calls it asks for are `PipelineAction` values,
//! and their outcomes come back as `PipelineEvent` values, fed in by an
//! unverified driver.

use crate::context::Context;
use crate::errors::{PipelineError, Stage};
use crate::gpt::{
    is_chat_request, is_detect_request, is_generate_image_request, is_image_prompt_request,
    CompletionsRequest, GenerateImageRequest, Gpt,
};
use crate::image::{image_bytes_of, preview_bytes_of, spec_file_name, Image, ImageData};
use crate::line::{
    first_message_event, from_message, is_inbound_of, is_outbound_of, Line, LoadingStart,
    ReplyMessage, WebhookEvent,
};
use crate::message::{clone_messages, Actor, ImageMessage, Message};
use crate::store::OrderDirection;
use crate::user::UserDemand;
use vstd::prelude::*;

verus! {

/// How many history messages are replayed into a generation prompt.
pub const HISTORY_LIMIT: u32 = 10;

/// The clients one pipeline run works with: the language-model capability
/// and the messaging-platform capability.
#[derive(Debug)]
pub struct AppContext {
    pub llm_client: Gpt,
    pub message_client: Line,
}

impl Clone for AppContext {
    fn clone(&self) -> (res: Self)
        ensures
            res == *self,
    {
        AppContext {
            llm_client: self.llm_client.clone(),
            message_client: self.message_client.clone(),
        }
    }
}

/// One original or preview payload awaiting upload, under its object
/// name.
#[derive(Debug)]
pub struct UploadItem {
    pub object_name: String,
    pub bytes: Vec<u8>,
}

/// Where one pipeline run stands: each awaiting state names the outside
/// work in flight; `Done` and `Failed` are terminal.
#[derive(Debug)]
pub enum PipelineState {
    /// The raw delivery, not yet parsed.
    Received { payload: WebhookEvent },
    /// The inbound turn is parsed; the loading indicator is in flight.
    Loading { msg: Message },
    /// The classifier call is in flight.
    Classifying { msg: Message },
    /// The history listing is in flight; the turn carries its context.
    LoadingHistory { msg: Message, demand: UserDemand },
    /// The inbound turn is being persisted before generation begins.
    SavingInbound { msg: Message, demand: UserDemand, history: Vec<Message> },
    /// The chat completion is in flight.
    Chatting { msg: Message },
    /// The image-prompt completion is in flight.
    PromptingImage { msg: Message },
    /// The image generation is in flight.
    GeneratingImages { msg: Message },
    /// The 2 * count uploads are in flight.
    Uploading { msg: Message, count: usize },
    /// The one reply call is in flight.
    Replying { bot: Vec<Message> },
    /// The bot turns are being persisted after the successful reply.
    SavingOutbound { bot: Vec<Message> },
    Done,
    Failed { stage: Stage, error: PipelineError },
}

/// The outcome of the outside work a state was awaiting.
#[derive(Debug)]
pub enum PipelineEvent {
    Begin,
    /// Whether the loading indicator was shown; observed, never fatal.
    LoadingShown { ok: bool },
    /// The classifier's validated reply, or None on any classification
    /// failure.
    Classified { outcome: Option<(Context, UserDemand)> },
    /// The listed history, oldest first, or None on a listing failure.
    HistoryListed { outcome: Option<Vec<Message>> },
    InboundSaved { ok: bool },
    /// The chat completion's text, or None on a generation failure.
    ChatCompleted { outcome: Option<String> },
    /// The generated image prompt, or None on a generation failure.
    ImagePromptReady { outcome: Option<String> },
    /// The generated images, base64 payloads wrapped with fresh ids, or
    /// None on a generation failure.
    ImagesGenerated { outcome: Option<Vec<Image>> },
    /// The original and preview download URLs, each in upload order, or
    /// None if any upload failed.
    UploadsFinished { outcome: Option<(Vec<String>, Vec<String>)> },
    ReplyDelivered { ok: bool },
    OutboundSaved { ok: bool },
}

/// What the driver must do next. Every action but `Finish` and `Abort`
/// names the outside call whose outcome comes back as the next event.
#[derive(Debug)]
pub enum PipelineAction {
    ShowLoading { request: LoadingStart },
    Classify { request: CompletionsRequest },
    LoadHistory { user_id: String, limit: u32, order: OrderDirection },
    SaveInbound { messages: Vec<Message> },
    CompleteChat { request: CompletionsRequest },
    BuildImagePrompt { request: CompletionsRequest },
    GenerateImages { request: GenerateImageRequest },
    UploadAll { originals: Vec<UploadItem>, previews: Vec<UploadItem> },
    SendReply { request: ReplyMessage },
    SaveOutbound { messages: Vec<Message> },
    Finish,
    Abort { stage: Stage, error: PipelineError },
}

/// Which event kind a state awaits. `Done` and `Failed` await nothing:
/// they are terminal.
pub open spec fn event_fits(state: PipelineState, event: PipelineEvent) -> bool {
    match (state, event) {
        (PipelineState::Received { .. }, PipelineEvent::Begin) => true,
        (PipelineState::Loading { .. }, PipelineEvent::LoadingShown { .. }) => true,
        (PipelineState::Classifying { .. }, PipelineEvent::Classified { .. }) => true,
        (PipelineState::LoadingHistory { .. }, PipelineEvent::HistoryListed { .. }) => true,
        (PipelineState::SavingInbound { .. }, PipelineEvent::InboundSaved { .. }) => true,
        (PipelineState::Chatting { .. }, PipelineEvent::ChatCompleted { .. }) => true,
        (PipelineState::PromptingImage { .. }, PipelineEvent::ImagePromptReady { .. }) => true,
        (PipelineState::GeneratingImages { .. }, PipelineEvent::ImagesGenerated { .. }) => true,
        (PipelineState::Uploading { .. }, PipelineEvent::UploadsFinished { .. }) => true,
        (PipelineState::Replying { .. }, PipelineEvent::ReplyDelivered { .. }) => true,
        (PipelineState::SavingOutbound { .. }, PipelineEvent::OutboundSaved { .. }) => true,
        _ => false,
    }
}

/// A failing transition: the run ends at the given stage with the given
/// error, and the driver is told to stop.
pub open spec fn is_failure(
    n: PipelineState,
    a: PipelineAction,
    stage: Stage,
    error: PipelineError,
) -> bool {
    n == (PipelineState::Failed { stage, error }) && a == (PipelineAction::Abort { stage, error })
}

/// Whether a turn is the one bot chat turn answering `msg` with `text`:
/// same user, context and reply token, the completion as its text.
pub open spec fn is_chat_bot_message(b: Message, msg: Message, text: String) -> bool {
    &&& b.from == Actor::Bot
    &&& b.text == text
    &&& b.user == msg.user
    &&& b.context == msg.context
    &&& b.reply_token == msg.reply_token
    &&& b.image == msg.image
}

/// Whether a turn is a bot image turn answering `msg`: empty text, the
/// same user, context and reply token, and the given URL pair.
pub open spec fn is_image_bot_message(
    b: Message,
    msg: Message,
    url: String,
    preview: String,
) -> bool {
    &&& b.from == Actor::Bot
    &&& b.text@ == Seq::<char>::empty()
    &&& b.user == msg.user
    &&& b.context == msg.context
    &&& b.reply_token == msg.reply_token
    &&& b.image matches Some(im) && im.url == url && im.preview_url == preview
}

/// The bytes of a decoded payload, where there are any.
pub open spec fn bytes_or_empty(o: Option<Seq<u8>>) -> Seq<u8> {
    match o {
        Some(b) => b,
        None => Seq::empty(),
    }
}

/// Whether every generated image decodes and yields a preview. The image
/// branch fails as one unit if any does not.
pub open spec fn all_previews_ok(images: Seq<Image>) -> bool {
    forall|i: int| 0 <= i < images.len() ==> (#[trigger] preview_bytes_of(images[i].data)) is Some
}

pub open spec fn is_upload_item(item: UploadItem, name: Seq<char>, bytes: Seq<u8>) -> bool {
    item.object_name@ == name && item.bytes@ == bytes
}

/// Whether the two upload lists are the originals and derived previews of
/// the images, in image order: the i-th original and the i-th preview
/// belong to the i-th image, under its object name.
pub open spec fn is_upload_batch(
    originals: Seq<UploadItem>,
    previews: Seq<UploadItem>,
    images: Seq<Image>,
) -> bool {
    &&& originals.len() == images.len()
    &&& previews.len() == images.len()
    &&& forall|i: int|
        0 <= i < images.len() ==> #[trigger] is_upload_item(
            originals[i],
            spec_file_name(images[i].id@, images[i].is_preview),
            bytes_or_empty(image_bytes_of(images[i].data)),
        )
    &&& forall|i: int|
        0 <= i < images.len() ==> #[trigger] is_upload_item(
            previews[i],
            spec_file_name(images[i].id@, true),
            bytes_or_empty(preview_bytes_of(images[i].data)),
        )
}

/// The transition relation of the pipeline: from a state and the event it
/// awaited, the next state and the next action. This is the contract the
/// executable `step` meets, and what the pipeline's laws are proved over.
pub open spec fn step_rel(
    cfg: AppContext,
    s: PipelineState,
    e: PipelineEvent,
    n: PipelineState,
    a: PipelineAction,
) -> bool {
    match (s, e) {
        (PipelineState::Received { payload }, PipelineEvent::Begin) => {
            match first_message_event(payload.events@) {
                None => is_failure(n, a, Stage::Parsed, PipelineError::NoMessageEvent),
                Some(ev) => {
                    if ev.message is Text {
                        &&& n matches PipelineState::Loading { msg } && is_inbound_of(msg, ev)
                        &&& a matches PipelineAction::ShowLoading { request } && request.chat_id
                            == cfg.message_client.bot_user_id && request.loading_seconds == 60
                    } else {
                        is_failure(n, a, Stage::Parsed, PipelineError::UnsupportedMessage)
                    }
                },
            }
        },
        (PipelineState::Loading { msg }, PipelineEvent::LoadingShown { .. }) => {
            &&& n == (PipelineState::Classifying { msg })
            &&& a matches PipelineAction::Classify { request } && is_detect_request(
                request,
                msg.text@,
            )
        },
        (PipelineState::Classifying { msg }, PipelineEvent::Classified { outcome }) => {
            match outcome {
                None => is_failure(n, a, Stage::Classified, PipelineError::Classification),
                Some((ctx, demand)) => {
                    &&& n matches PipelineState::LoadingHistory { msg: m2, demand: d2 } && d2
                        == demand && m2.user == msg.user && m2.from == msg.from && m2.text
                        == msg.text && m2.context == Some(ctx) && m2.reply_token == msg.reply_token
                        && m2.image == msg.image
                    &&& a matches PipelineAction::LoadHistory { user_id, limit, order } && user_id
                        == msg.user.id && limit == HISTORY_LIMIT && order
                        == OrderDirection::Ascending
                },
            }
        },
        (
            PipelineState::LoadingHistory { msg, demand },
            PipelineEvent::HistoryListed { outcome },
        ) => {
            match outcome {
                None => is_failure(n, a, Stage::HistoryLoaded, PipelineError::Persistence),
                Some(history) => {
                    &&& n == (PipelineState::SavingInbound { msg, demand, history })
                    &&& a matches PipelineAction::SaveInbound { messages } && messages@.len() == 1
                        && messages@[0] == msg
                },
            }
        },
        (
            PipelineState::SavingInbound { msg, demand, history },
            PipelineEvent::InboundSaved { ok },
        ) => {
            if !ok {
                is_failure(n, a, Stage::HistoryLoaded, PipelineError::Persistence)
            } else {
                match demand {
                    UserDemand::Chat => {
                        &&& n == (PipelineState::Chatting { msg })
                        &&& a matches PipelineAction::CompleteChat { request } && is_chat_request(
                            request,
                            history@ + seq![msg],
                        )
                    },
                    UserDemand::CreateImage => {
                        &&& n == (PipelineState::PromptingImage { msg })
                        &&& a matches PipelineAction::BuildImagePrompt { request }
                            && is_image_prompt_request(request, history@ + seq![msg])
                    },
                }
            }
        },
        (PipelineState::Chatting { msg }, PipelineEvent::ChatCompleted { outcome }) => {
            match outcome {
                None => is_failure(n, a, Stage::Chatting, PipelineError::Generation),
                Some(text) => {
                    match msg.reply_token {
                        None => is_failure(n, a, Stage::Replied, PipelineError::MissingReplyToken),
                        Some(tok) => {
                            &&& n matches PipelineState::Replying { bot } && bot@.len() == 1
                                && is_chat_bot_message(bot@[0], msg, text)
                            &&& a matches PipelineAction::SendReply { request }
                                && request.reply_token == tok && request.messages@.len() == 1 && (
                            n matches PipelineState::Replying { bot } && is_outbound_of(
                                request.messages@[0],
                                bot@[0],
                            ))
                        },
                    }
                },
            }
        },
        (PipelineState::PromptingImage { msg }, PipelineEvent::ImagePromptReady { outcome }) => {
            match outcome {
                None => is_failure(n, a, Stage::ImageGenerating, PipelineError::Generation),
                Some(prompt) => {
                    &&& n == (PipelineState::GeneratingImages { msg })
                    &&& a matches PipelineAction::GenerateImages { request }
                        && is_generate_image_request(
                        request,
                        cfg.llm_client.image_config,
                        prompt@,
                    )
                },
            }
        },
        (PipelineState::GeneratingImages { msg }, PipelineEvent::ImagesGenerated { outcome }) => {
            match outcome {
                None => is_failure(n, a, Stage::ImageGenerating, PipelineError::Generation),
                Some(images) => {
                    if all_previews_ok(images@) {
                        &&& n matches PipelineState::Uploading { msg: m2, count } && m2 == msg
                            && count == images@.len()
                        &&& a matches PipelineAction::UploadAll { originals, previews }
                            && is_upload_batch(originals@, previews@, images@)
                    } else {
                        is_failure(n, a, Stage::ImageGenerating, PipelineError::ImageDecode)
                    }
                },
            }
        },
        (PipelineState::Uploading { msg, count }, PipelineEvent::UploadsFinished { outcome }) => {
            match outcome {
                None => is_failure(n, a, Stage::ImageGenerating, PipelineError::Upload),
                Some((originals, previews)) => {
                    if originals@.len() == count && previews@.len() == count {
                        match msg.reply_token {
                            None => is_failure(
                                n,
                                a,
                                Stage::Replied,
                                PipelineError::MissingReplyToken,
                            ),
                            Some(tok) => {
                                &&& n matches PipelineState::Replying { bot } && bot@.len()
                                    == count && (forall|i: int|
                                    0 <= i < count ==> is_image_bot_message(
                                        #[trigger] bot@[i],
                                        msg,
                                        originals@[i],
                                        previews@[i],
                                    ))
                                &&& a matches PipelineAction::SendReply { request }
                                    && request.reply_token == tok && request.messages@.len()
                                    == count && (n matches PipelineState::Replying { bot }
                                    && forall|i: int|
                                    0 <= i < count ==> #[trigger] is_outbound_of(
                                        request.messages@[i],
                                        bot@[i],
                                    ))
                            },
                        }
                    } else {
                        is_failure(n, a, Stage::ImageGenerating, PipelineError::Upload)
                    }
                },
            }
        },
        (PipelineState::Replying { bot }, PipelineEvent::ReplyDelivered { ok }) => {
            if ok {
                &&& n == (PipelineState::SavingOutbound { bot })
                &&& a matches PipelineAction::SaveOutbound { messages } && messages@ == bot@
            } else {
                is_failure(n, a, Stage::Replied, PipelineError::Delivery)
            }
        },
        (PipelineState::SavingOutbound { .. }, PipelineEvent::OutboundSaved { ok }) => {
            if ok {
                n == PipelineState::Done && a == PipelineAction::Finish
            } else {
                is_failure(n, a, Stage::Persisted, PipelineError::Persistence)
            }
        },
        _ => false,
    }
}

/// A failing transition.
fn fail(stage: Stage, error: PipelineError) -> (r: (PipelineState, PipelineAction))
    ensures
        is_failure(r.0, r.1, stage, error),
{
    (PipelineState::Failed { stage, error }, PipelineAction::Abort { stage, error })
}

/// Maps bot turns to their outbound platform messages, keeping order.
fn outbound_messages(bot: &Vec<Message>) -> (r: Vec<crate::line::Message>)
    ensures
        r@.len() == bot@.len(),
        forall|i: int| 0 <= i < bot@.len() ==> #[trigger] is_outbound_of(r@[i], bot@[i]),
{
    let mut r: Vec<crate::line::Message> = Vec::new();
    let mut i: usize = 0;
    while i < bot.len()
        invariant
            i <= bot.len(),
            r@.len() == i,
            forall|k: int| 0 <= k < i ==> #[trigger] is_outbound_of(r@[k], bot@[k]),
        decreases bot.len() - i,
    {
        r.push(from_message(&bot[i]));
        i = i + 1;
    }
    r
}

/// Builds the bot image turns: the i-th turn pairs the i-th original URL
/// with the i-th preview URL, strictly by list position.
fn image_bot_messages(msg: &Message, originals: &Vec<String>, previews: &Vec<String>) -> (r: Vec<
    Message,
>)
    requires
        originals@.len() == previews@.len(),
    ensures
        r@.len() == originals@.len(),
        forall|i: int|
            0 <= i < r@.len() ==> is_image_bot_message(
                #[trigger] r@[i],
                *msg,
                originals@[i],
                previews@[i],
            ),
{
    let mut r: Vec<Message> = Vec::new();
    let mut i: usize = 0;
    while i < originals.len()
        invariant
            i <= originals@.len(),
            originals@.len() == previews@.len(),
            r@.len() == i,
            forall|k: int|
                0 <= k < i ==> is_image_bot_message(
                    #[trigger] r@[k],
                    *msg,
                    originals@[k],
                    previews@[k],
                ),
        decreases originals@.len() - i,
    {
        let base = msg.clone();
        r.push(
            Message {
                from: Actor::Bot,
                text: String::new(),
                image: Some(
                    ImageMessage {
                        url: originals[i].clone(),
                        preview_url: previews[i].clone(),
                    },
                ),
                ..base
            },
        );
        i = i + 1;
    }
    r
}

/// Decodes every generated image and derives its preview, collecting the
/// 2 * K upload payloads under their object names. Any image that does
/// not decode fails the whole batch: the image branch fails as one unit.
fn build_upload_batch(images: &Vec<Image>) -> (r: Result<
    (Vec<UploadItem>, Vec<UploadItem>),
    PipelineError,
>)
    ensures
        r is Ok <==> all_previews_ok(images@),
        r matches Ok(b) ==> is_upload_batch(b.0@, b.1@, images@),
        r is Err ==> r == Err::<(Vec<UploadItem>, Vec<UploadItem>), PipelineError>(
            PipelineError::ImageDecode,
        ),
{
    let mut originals: Vec<UploadItem> = Vec::new();
    let mut previews: Vec<UploadItem> = Vec::new();
    let mut i: usize = 0;
    while i < images.len()
        invariant
            i <= images@.len(),
            originals@.len() == i,
            previews@.len() == i,
            forall|k: int|
                0 <= k < i ==> (#[trigger] preview_bytes_of(images@[k].data)) is Some,
            forall|k: int|
                0 <= k < i ==> #[trigger] is_upload_item(
                    originals@[k],
                    spec_file_name(images@[k].id@, images@[k].is_preview),
                    bytes_or_empty(image_bytes_of(images@[k].data)),
                ),
            forall|k: int|
                0 <= k < i ==> #[trigger] is_upload_item(
                    previews@[k],
                    spec_file_name(images@[k].id@, true),
                    bytes_or_empty(preview_bytes_of(images@[k].data)),
                ),
        decreases images@.len() - i,
    {
        let img = &images[i];
        let bytes = match img.to_bytes() {
            Ok(b) => b,
            Err(e) => {
                return Err(e);
            },
        };
        let preview = match img.to_preview() {
            Ok(p) => p,
            Err(e) => {
                return Err(e);
            },
        };
        let original_name = img.file_name();
        let preview_name = preview.file_name();
        let preview_bytes = match preview.data {
            ImageData::Bytes(v) => v,
            ImageData::Base64(_) => unreached(),
        };
        originals.push(UploadItem { object_name: original_name, bytes });
        previews.push(UploadItem { object_name: preview_name, bytes: preview_bytes });
        i = i + 1;
    }
    Ok((originals, previews))
}

impl AppContext {
    pub fn new(llm_client: Gpt, message_client: Line) -> (r: AppContext)
        ensures
            r.llm_client == llm_client,
            r.message_client == message_client,
    {
        AppContext { llm_client, message_client }
    }

    /// One transition of the pipeline: consumes the awaited event and
    /// hands the driver the next state and the next action.
    pub fn step(&self, state: PipelineState, event: PipelineEvent) -> (r: (
        PipelineState,
        PipelineAction,
    ))
        requires
            event_fits(state, event),
        ensures
            step_rel(*self, state, event, r.0, r.1),
    {
        match (state, event) {
            (PipelineState::Received { payload }, PipelineEvent::Begin) => {
                match self.message_client.get_user_message(payload) {
                    Ok(msg) => {
                        let request = self.message_client.loading_request();
                        (
                            PipelineState::Loading { msg },
                            PipelineAction::ShowLoading { request },
                        )
                    },
                    Err(e) => fail(Stage::Parsed, e),
                }
            },
            (PipelineState::Loading { msg }, PipelineEvent::LoadingShown { ok: _ }) => {
                let request = self.llm_client.detect_demand_request(msg.text.clone());
                (PipelineState::Classifying { msg }, PipelineAction::Classify { request })
            },
            (PipelineState::Classifying { msg }, PipelineEvent::Classified { outcome }) => {
                match outcome {
                    None => fail(Stage::Classified, PipelineError::Classification),
                    Some((ctx, demand)) => {
                        let user_id = msg.user.id.clone();
                        let msg = Message { context: Some(ctx), ..msg };
                        (
                            PipelineState::LoadingHistory { msg, demand },
                            PipelineAction::LoadHistory {
                                user_id,
                                limit: HISTORY_LIMIT,
                                order: OrderDirection::Ascending,
                            },
                        )
                    },
                }
            },
            (
                PipelineState::LoadingHistory { msg, demand },
                PipelineEvent::HistoryListed { outcome },
            ) => {
                match outcome {
                    None => fail(Stage::HistoryLoaded, PipelineError::Persistence),
                    Some(history) => {
                        let mut messages: Vec<Message> = Vec::new();
                        messages.push(msg.clone());
                        (
                            PipelineState::SavingInbound { msg, demand, history },
                            PipelineAction::SaveInbound { messages },
                        )
                    },
                }
            },
            (
                PipelineState::SavingInbound { msg, demand, history },
                PipelineEvent::InboundSaved { ok },
            ) => {
                if !ok {
                    fail(Stage::HistoryLoaded, PipelineError::Persistence)
                } else {
                    let mut turns = clone_messages(&history);
                    turns.push(msg.clone());
                    proof {
                        assert(turns@ =~= history@ + seq![msg]);
                    }
                    match demand {
                        UserDemand::Chat => {
                            let request = self.llm_client.chat_request(&turns);
                            (
                                PipelineState::Chatting { msg },
                                PipelineAction::CompleteChat { request },
                            )
                        },
                        UserDemand::CreateImage => {
                            let request = self.llm_client.create_image_prompt_request(&turns);
                            (
                                PipelineState::PromptingImage { msg },
                                PipelineAction::BuildImagePrompt { request },
                            )
                        },
                    }
                }
            },
            (PipelineState::Chatting { msg }, PipelineEvent::ChatCompleted { outcome }) => {
                match outcome {
                    None => fail(Stage::Chatting, PipelineError::Generation),
                    Some(text) => {
                        match &msg.reply_token {
                            None => fail(Stage::Replied, PipelineError::MissingReplyToken),
                            Some(tok) => {
                                let tok = tok.clone();
                                let base = msg.clone();
                                let bot_msg = Message { from: Actor::Bot, text, ..base };
                                let mut bot: Vec<Message> = Vec::new();
                                bot.push(bot_msg);
                                let messages = outbound_messages(&bot);
                                let request = self.message_client.reply_request(messages, tok);
                                (
                                    PipelineState::Replying { bot },
                                    PipelineAction::SendReply { request },
                                )
                            },
                        }
                    },
                }
            },
            (
                PipelineState::PromptingImage { msg },
                PipelineEvent::ImagePromptReady { outcome },
            ) => {
                match outcome {
                    None => fail(Stage::ImageGenerating, PipelineError::Generation),
                    Some(prompt) => {
                        let request = self.llm_client.generate_image_request(prompt);
                        (
                            PipelineState::GeneratingImages { msg },
                            PipelineAction::GenerateImages { request },
                        )
                    },
                }
            },
            (
                PipelineState::GeneratingImages { msg },
                PipelineEvent::ImagesGenerated { outcome },
            ) => {
                match outcome {
                    None => fail(Stage::ImageGenerating, PipelineError::Generation),
                    Some(images) => {
                        match build_upload_batch(&images) {
                            Ok((originals, previews)) => (
                                PipelineState::Uploading { msg, count: images.len() },
                                PipelineAction::UploadAll { originals, previews },
                            ),
                            Err(_) => fail(Stage::ImageGenerating, PipelineError::ImageDecode),
                        }
                    },
                }
            },
            (
                PipelineState::Uploading { msg, count },
                PipelineEvent::UploadsFinished { outcome },
            ) => {
                match outcome {
                    None => fail(Stage::ImageGenerating, PipelineError::Upload),
                    Some((originals, previews)) => {
                        if originals.len() != count || previews.len() != count {
                            fail(Stage::ImageGenerating, PipelineError::Upload)
                        } else {
                            match &msg.reply_token {
                                None => fail(Stage::Replied, PipelineError::MissingReplyToken),
                                Some(tok) => {
                                    let tok = tok.clone();
                                    let bot = image_bot_messages(&msg, &originals, &previews);
                                    let messages = outbound_messages(&bot);
                                    let request = self.message_client.reply_request(
                                        messages,
                                        tok,
                                    );
                                    (
                                        PipelineState::Replying { bot },
                                        PipelineAction::SendReply { request },
                                    )
                                },
                            }
                        }
                    },
                }
            },
            (PipelineState::Replying { bot }, PipelineEvent::ReplyDelivered { ok }) => {
                if ok {
                    let messages = clone_messages(&bot);
                    (
                        PipelineState::SavingOutbound { bot },
                        PipelineAction::SaveOutbound { messages },
                    )
                } else {
                    fail(Stage::Replied, PipelineError::Delivery)
                }
            },
            (PipelineState::SavingOutbound { bot: _ }, PipelineEvent::OutboundSaved { ok }) => {
                if ok {
                    (PipelineState::Done, PipelineAction::Finish)
                } else {
                    fail(Stage::Persisted, PipelineError::Persistence)
                }
            },
            _ => unreached(),
        }
    }
}

/// The order of the pipeline's stages. Every fitting transition moves
/// strictly forward, so no awaiting state is visited twice in one run.
pub open spec fn spec_phase(s: PipelineState) -> nat {
    match s {
        PipelineState::Received { .. } => 0,
        PipelineState::Loading { .. } => 1,
        PipelineState::Classifying { .. } => 2,
        PipelineState::LoadingHistory { .. } => 3,
        PipelineState::SavingInbound { .. } => 4,
        PipelineState::Chatting { .. } => 5,
        PipelineState::PromptingImage { .. } => 5,
        PipelineState::GeneratingImages { .. } => 6,
        PipelineState::Uploading { .. } => 7,
        PipelineState::Replying { .. } => 8,
        PipelineState::SavingOutbound { .. } => 9,
        PipelineState::Done => 10,
        PipelineState::Failed { .. } => 10,
    }
}

/// Every fitting transition moves strictly forward through the stages.
pub proof fn lemma_step_moves_forward(
    cfg: AppContext,
    s: PipelineState,
    e: PipelineEvent,
    n: PipelineState,
    a: PipelineAction,
)
    requires
        event_fits(s, e),
        step_rel(cfg, s, e, n, a),
    ensures
        spec_phase(n) > spec_phase(s),
{
}

/// One recorded transition of a run: the state, the event it consumed,
/// and the state and action that came out.
pub type RunStep = (PipelineState, PipelineEvent, PipelineState, PipelineAction);

/// Whether `tr` records one run of the pipeline under `cfg`: every step
/// consumes an event its state awaited, obeys the transition relation,
/// and starts where the previous step ended.
pub open spec fn is_run(cfg: AppContext, tr: Seq<RunStep>) -> bool {
    &&& forall|i: int|
        0 <= i < tr.len() ==> event_fits(#[trigger] tr[i].0, tr[i].1) && step_rel(
            cfg,
            tr[i].0,
            tr[i].1,
            tr[i].2,
            tr[i].3,
        )
    &&& forall|i: int| 0 < i < tr.len() ==> (#[trigger] tr[i].0) == tr[i - 1].2
}

proof fn lemma_phase_monotone(cfg: AppContext, tr: Seq<RunStep>, i: int, j: int)
    requires
        is_run(cfg, tr),
        0 <= i <= j < tr.len(),
    ensures
        spec_phase(tr[i].2) <= spec_phase(tr[j].2),
    decreases j - i,
{
    if i < j {
        lemma_phase_monotone(cfg, tr, i, j - 1);
        lemma_step_moves_forward(cfg, tr[j].0, tr[j].1, tr[j].2, tr[j].3);
    }
}

proof fn lemma_send_reply_enters_replying(
    cfg: AppContext,
    s: PipelineState,
    e: PipelineEvent,
    n: PipelineState,
    a: PipelineAction,
)
    requires
        event_fits(s, e),
        step_rel(cfg, s, e, n, a),
        a matches PipelineAction::SendReply { .. },
    ensures
        n is Replying,
{
}

/// At most one reply call per delivery: once a run has asked the driver
/// to send the reply, no later step of that run asks again, whatever
/// events come in.
pub proof fn lemma_at_most_one_reply(cfg: AppContext, tr: Seq<RunStep>, i: int, j: int)
    requires
        is_run(cfg, tr),
        0 <= i < j < tr.len(),
        tr[i].3 matches PipelineAction::SendReply { .. },
    ensures
        !(tr[j].3 matches PipelineAction::SendReply { .. }),
{
    if tr[j].3 is SendReply {
        lemma_send_reply_enters_replying(cfg, tr[i].0, tr[i].1, tr[i].2, tr[i].3);
        lemma_send_reply_enters_replying(cfg, tr[j].0, tr[j].1, tr[j].2, tr[j].3);
        lemma_phase_monotone(cfg, tr, i, j - 1);
        lemma_step_moves_forward(cfg, tr[j].0, tr[j].1, tr[j].2, tr[j].3);
    }
}

/// Whether an action starts one of the two generation branches.
pub open spec fn is_branch_action(a: PipelineAction) -> bool {
    a matches PipelineAction::CompleteChat { .. } || a matches PipelineAction::BuildImagePrompt {
        ..
    }
}

proof fn lemma_branch_enters_generation(
    cfg: AppContext,
    s: PipelineState,
    e: PipelineEvent,
    n: PipelineState,
    a: PipelineAction,
)
    requires
        event_fits(s, e),
        step_rel(cfg, s, e, n, a),
        is_branch_action(a),
    ensures
        spec_phase(n) == 5,
{
}

/// At most one generation branch per delivery: once a run has started a
/// chat completion or an image prompt, no later step of that run starts
/// either branch again.
pub proof fn lemma_at_most_one_branch(cfg: AppContext, tr: Seq<RunStep>, i: int, j: int)
    requires
        is_run(cfg, tr),
        0 <= i < j < tr.len(),
        is_branch_action(tr[i].3),
    ensures
        !is_branch_action(tr[j].3),
{
    if is_branch_action(tr[j].3) {
        lemma_branch_enters_generation(cfg, tr[i].0, tr[i].1, tr[i].2, tr[i].3);
        lemma_branch_enters_generation(cfg, tr[j].0, tr[j].1, tr[j].2, tr[j].3);
        lemma_phase_monotone(cfg, tr, i, j - 1);
        lemma_step_moves_forward(cfg, tr[j].0, tr[j].1, tr[j].2, tr[j].3);
    }
}

/// What holds of every state once classification has happened: the turn
/// in flight carries its context, and every bot turn built from it
/// inherits that context.
pub open spec fn classified_inv(s: PipelineState) -> bool {
    match s {
        PipelineState::LoadingHistory { msg, .. } => msg.context is Some,
        PipelineState::SavingInbound { msg, .. } => msg.context is Some,
        PipelineState::Chatting { msg } => msg.context is Some,
        PipelineState::PromptingImage { msg } => msg.context is Some,
        PipelineState::GeneratingImages { msg } => msg.context is Some,
        PipelineState::Uploading { msg, .. } => msg.context is Some,
        PipelineState::Replying { bot } => forall|i: int|
            0 <= i < bot@.len() ==> (#[trigger] bot@[i].context) is Some,
        PipelineState::SavingOutbound { bot } => forall|i: int|
            0 <= i < bot@.len() ==> (#[trigger] bot@[i].context) is Some,
        _ => true,
    }
}

/// Every message the pipeline asks to persist carries a context: the
/// classified user turn carries the classifier's, and bot turns inherit
/// it. This is exactly what the history store's `save` demands.
pub proof fn lemma_saved_messages_carry_context(
    cfg: AppContext,
    s: PipelineState,
    e: PipelineEvent,
    n: PipelineState,
    a: PipelineAction,
)
    requires
        event_fits(s, e),
        step_rel(cfg, s, e, n, a),
        classified_inv(s),
    ensures
        classified_inv(n),
        a matches PipelineAction::SaveInbound { messages } ==> forall|i: int|
            0 <= i < messages@.len() ==> (#[trigger] messages@[i].context) is Some,
        a matches PipelineAction::SaveOutbound { messages } ==> forall|i: int|
            0 <= i < messages@.len() ==> (#[trigger] messages@[i].context) is Some,
{
}

/// Bot turns are persisted only after a successful reply: the only
/// transition that asks to save outbound messages consumes a delivered
/// reply, and it saves exactly the turns that were replied.
pub proof fn lemma_outbound_saved_only_after_reply(
    cfg: AppContext,
    s: PipelineState,
    e: PipelineEvent,
    n: PipelineState,
    a: PipelineAction,
)
    requires
        event_fits(s, e),
        step_rel(cfg, s, e, n, a),
        a matches PipelineAction::SaveOutbound { .. },
    ensures
        s matches PipelineState::Replying { .. },
        e == (PipelineEvent::ReplyDelivered { ok: true }),
        s matches PipelineState::Replying { bot } ==> (a matches PipelineAction::SaveOutbound {
            messages,
        } && messages@ == bot@),
{
}

/// Once the inbound turn is saved, the demand picks exactly one branch:
/// Chat starts the chat completion, CreateImage starts the image prompt,
/// never both and never neither.
pub proof fn lemma_branch_follows_demand(
    cfg: AppContext,
    msg: Message,
    demand: UserDemand,
    history: Vec<Message>,
    n: PipelineState,
    a: PipelineAction,
)
    requires
        step_rel(
            cfg,
            PipelineState::SavingInbound { msg, demand, history },
            PipelineEvent::InboundSaved { ok: true },
            n,
            a,
        ),
    ensures
        demand == UserDemand::Chat <==> (a matches PipelineAction::CompleteChat { .. }
            && n matches PipelineState::Chatting { .. }),
        demand == UserDemand::CreateImage <==> (a matches PipelineAction::BuildImagePrompt { .. }
            && n matches PipelineState::PromptingImage { .. }),
{
}

} // verus!
