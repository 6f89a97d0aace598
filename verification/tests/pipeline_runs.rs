use base64::Engine;
use unai::context::Context;
use unai::errors::{PipelineError, Stage};
use unai::gpt::{Gpt, ImageConfig, ImageModel, ImageSize};
use unai::image::Image;
use unai::line::{
    DeliveryContext, Event, EventType, Line, Message as LineMessage, Source, TextMessage,
    WebhookEvent,
};
use unai::message::Actor;
use unai::pipeline::{AppContext, PipelineAction, PipelineEvent, PipelineState};
use unai::store::OrderDirection;
use unai::user::UserDemand;

fn app() -> AppContext {
    AppContext::new(
        Gpt::new(
            String::from("api-key"),
            ImageConfig::new(ImageModel::DallE2, ImageSize::Medium, 2),
        ),
        Line::new(String::from("channel-token"), String::from("bot-user")),
    )
}

fn inbound_event(text: &str, user: &str, token: Option<&str>) -> Event {
    Event {
        kind: EventType::Message,
        message: LineMessage::Text(TextMessage {
            id: None,
            kind: String::from("text"),
            text: String::from(text),
            quote_token: None,
        }),
        timestamp: 0,
        source: Source { kind: String::from("user"), user_id: String::from(user) },
        reply_token: token.map(String::from),
        mode: String::from("active"),
        webhook_event_id: String::from("evt-1"),
        delivery_context: DeliveryContext { is_redelivery: false },
    }
}

fn delivery(text: &str, user: &str, token: Option<&str>) -> WebhookEvent {
    WebhookEvent {
        destination: String::from("dest"),
        events: vec![inbound_event(text, user, token)],
    }
}

fn generated_png_image(width: u32, height: u32) -> Image {
    let img = image::RgbaImage::new(width, height);
    let mut buf: Vec<u8> = Vec::new();
    let mut cursor = std::io::Cursor::new(&mut buf);
    image::DynamicImage::ImageRgba8(img)
        .write_to(&mut cursor, image::ImageFormat::Png)
        .unwrap();
    Image::from_base64(base64::engine::general_purpose::STANDARD.encode(&buf))
}

#[test]
fn scenario_chat_hello() {
    let app = app();
    let mut reply_calls = 0;
    let mut chat_calls = 0;
    let mut image_calls = 0;

    let (state, action) = app.step(
        PipelineState::Received { payload: delivery("Hello", "user-1", Some("tok-1")) },
        PipelineEvent::Begin,
    );
    match &action {
        PipelineAction::ShowLoading { request } => {
            assert_eq!(request.chat_id, "bot-user");
            assert_eq!(request.loading_seconds, 60);
        },
        _ => panic!("expected the loading indicator"),
    }

    let (state, action) = app.step(state, PipelineEvent::LoadingShown { ok: true });
    match &action {
        PipelineAction::Classify { request } => {
            assert_eq!(request.model, "gpt-4o-mini");
            assert_eq!(request.messages[1].content, "Hello");
        },
        _ => panic!("expected the classifier call"),
    }

    let (state, action) = app.step(
        state,
        PipelineEvent::Classified {
            outcome: Some((Context::new(String::from("Greeting")), UserDemand::Chat)),
        },
    );
    match &action {
        PipelineAction::LoadHistory { user_id, limit, order } => {
            assert_eq!(user_id, "user-1");
            assert_eq!(*limit, 10);
            assert!(matches!(order, OrderDirection::Ascending));
        },
        _ => panic!("expected the history listing"),
    }

    let (state, action) = app.step(state, PipelineEvent::HistoryListed { outcome: Some(vec![]) });
    match &action {
        PipelineAction::SaveInbound { messages } => {
            assert_eq!(messages.len(), 1);
            assert_eq!(messages[0].text, "Hello");
            assert!(messages[0].context.is_some());
            assert!(matches!(messages[0].from, Actor::User));
        },
        _ => panic!("expected the inbound save"),
    }

    let (state, action) = app.step(state, PipelineEvent::InboundSaved { ok: true });
    match &action {
        PipelineAction::CompleteChat { request } => {
            chat_calls += 1;
            assert_eq!(request.model, "gpt-4o");
            assert_eq!(request.messages.len(), 1);
            assert_eq!(request.messages[0].role, "user");
            assert_eq!(request.messages[0].content, "Hello");
        },
        PipelineAction::BuildImagePrompt { .. } => image_calls += 1,
        _ => panic!("expected the chat branch"),
    }
    assert_eq!((chat_calls, image_calls), (1, 0));

    let (state, action) = app.step(
        state,
        PipelineEvent::ChatCompleted { outcome: Some(String::from("Hi there!")) },
    );
    match &action {
        PipelineAction::SendReply { request } => {
            reply_calls += 1;
            assert_eq!(request.reply_token, "tok-1");
            assert_eq!(request.messages.len(), 1);
            match &request.messages[0] {
                LineMessage::Text(t) => assert_eq!(t.text, "Hi there!"),
                LineMessage::Image(_) => panic!("expected a text reply"),
            }
        },
        _ => panic!("expected the reply call"),
    }

    let (state, action) = app.step(state, PipelineEvent::ReplyDelivered { ok: true });
    match &action {
        PipelineAction::SaveOutbound { messages } => {
            assert_eq!(messages.len(), 1);
            assert!(matches!(messages[0].from, Actor::Bot));
            assert_eq!(messages[0].text, "Hi there!");
            assert!(messages[0].context.is_some());
        },
        _ => panic!("expected the outbound save"),
    }

    let (state, action) = app.step(state, PipelineEvent::OutboundSaved { ok: true });
    assert!(matches!(state, PipelineState::Done));
    assert!(matches!(action, PipelineAction::Finish));
    assert_eq!(reply_calls, 1);
}

#[test]
fn scenario_image_two_generations() {
    let app = app();

    let (state, _) = app.step(
        PipelineState::Received { payload: delivery("draw a cat", "user-2", Some("tok-2")) },
        PipelineEvent::Begin,
    );
    let (state, _) = app.step(state, PipelineEvent::LoadingShown { ok: true });
    let (state, _) = app.step(
        state,
        PipelineEvent::Classified {
            outcome: Some((Context::new(String::from("Art")), UserDemand::CreateImage)),
        },
    );
    let (state, _) = app.step(state, PipelineEvent::HistoryListed { outcome: Some(vec![]) });

    let (state, action) = app.step(state, PipelineEvent::InboundSaved { ok: true });
    match &action {
        PipelineAction::BuildImagePrompt { request } => {
            assert_eq!(request.model, "gpt-4o-mini");
            assert_eq!(request.messages.len(), 2);
            assert_eq!(request.messages[0].role, "system");
            assert_eq!(request.messages[1].content, "draw a cat");
        },
        _ => panic!("expected the image-prompt branch"),
    }

    let (state, action) = app.step(
        state,
        PipelineEvent::ImagePromptReady { outcome: Some(String::from("a cat, watercolor")) },
    );
    match &action {
        PipelineAction::GenerateImages { request } => {
            assert_eq!(request.model, "dall-e-2");
            assert_eq!(request.prompt, "a cat, watercolor");
            assert_eq!(request.n, 2);
            assert_eq!(request.size, "512x512");
        },
        _ => panic!("expected the generation call"),
    }

    let first = generated_png_image(100, 200);
    let second = generated_png_image(600, 600);
    let first_id = first.id.clone();
    let second_id = second.id.clone();
    let (state, action) = app.step(
        state,
        PipelineEvent::ImagesGenerated { outcome: Some(vec![first, second]) },
    );
    match &action {
        PipelineAction::UploadAll { originals, previews } => {
            assert_eq!(originals.len(), 2);
            assert_eq!(previews.len(), 2);
            assert_eq!(originals[0].object_name, format!("{}.png", first_id));
            assert_eq!(originals[1].object_name, format!("{}.png", second_id));
            assert_eq!(previews[0].object_name, format!("preview_{}.png", first_id));
            assert_eq!(previews[1].object_name, format!("preview_{}.png", second_id));
            let preview = image::load_from_memory(&previews[0].bytes).unwrap();
            assert_eq!((preview.width(), preview.height()), (256, 512));
            let original = image::load_from_memory(&originals[0].bytes).unwrap();
            assert_eq!((original.width(), original.height()), (100, 200));
        },
        _ => panic!("expected the upload fan-out"),
    }

    let (state, action) = app.step(
        state,
        PipelineEvent::UploadsFinished {
            outcome: Some((
                vec![String::from("o0"), String::from("o1")],
                vec![String::from("p0"), String::from("p1")],
            )),
        },
    );
    match &action {
        PipelineAction::SendReply { request } => {
            assert_eq!(request.reply_token, "tok-2");
            assert_eq!(request.messages.len(), 2);
            match &request.messages[0] {
                LineMessage::Image(im) => {
                    assert_eq!(im.original_content_url, "o0");
                    assert_eq!(im.preview_image_url, "p0");
                },
                LineMessage::Text(_) => panic!("expected an image reply"),
            }
            match &request.messages[1] {
                LineMessage::Image(im) => {
                    assert_eq!(im.original_content_url, "o1");
                    assert_eq!(im.preview_image_url, "p1");
                },
                LineMessage::Text(_) => panic!("expected an image reply"),
            }
        },
        _ => panic!("expected the reply call"),
    }

    let (state, action) = app.step(state, PipelineEvent::ReplyDelivered { ok: true });
    match &action {
        PipelineAction::SaveOutbound { messages } => {
            assert_eq!(messages.len(), 2);
            assert!(messages.iter().all(|m| m.text.is_empty()));
            assert!(messages.iter().all(|m| matches!(m.from, Actor::Bot)));
            assert_eq!(messages[0].image.as_ref().unwrap().url, "o0");
            assert_eq!(messages[1].image.as_ref().unwrap().preview_url, "p1");
        },
        _ => panic!("expected the outbound save"),
    }
    let (state, _) = app.step(state, PipelineEvent::OutboundSaved { ok: true });
    assert!(matches!(state, PipelineState::Done));
}

#[test]
fn scenario_classifier_failure_aborts_before_any_save() {
    let app = app();
    let mut actions: Vec<PipelineAction> = Vec::new();

    let (state, action) = app.step(
        PipelineState::Received { payload: delivery("Hello", "user-3", Some("tok-3")) },
        PipelineEvent::Begin,
    );
    actions.push(action);
    let (state, action) = app.step(state, PipelineEvent::LoadingShown { ok: true });
    actions.push(action);
    let (state, action) = app.step(state, PipelineEvent::Classified { outcome: None });
    actions.push(action);

    match &state {
        PipelineState::Failed { stage, error } => {
            assert_eq!(*stage, Stage::Classified);
            assert_eq!(*error, PipelineError::Classification);
        },
        _ => panic!("expected the run to abort"),
    }
    for action in &actions {
        assert!(!matches!(action, PipelineAction::SaveInbound { .. }));
        assert!(!matches!(action, PipelineAction::SaveOutbound { .. }));
        assert!(!matches!(action, PipelineAction::SendReply { .. }));
    }
}

#[test]
fn scenario_missing_reply_token_fails_after_generation() {
    let app = app();
    let mut actions: Vec<PipelineAction> = Vec::new();

    let (state, action) = app.step(
        PipelineState::Received { payload: delivery("draw a cat", "user-4", None) },
        PipelineEvent::Begin,
    );
    actions.push(action);
    let (state, action) = app.step(state, PipelineEvent::LoadingShown { ok: false });
    actions.push(action);
    let (state, action) = app.step(
        state,
        PipelineEvent::Classified {
            outcome: Some((Context::new(String::from("Art")), UserDemand::CreateImage)),
        },
    );
    actions.push(action);
    let (state, action) = app.step(state, PipelineEvent::HistoryListed { outcome: Some(vec![]) });
    actions.push(action);
    let (state, action) = app.step(state, PipelineEvent::InboundSaved { ok: true });
    actions.push(action);
    let (state, action) = app.step(
        state,
        PipelineEvent::ImagePromptReady { outcome: Some(String::from("a cat")) },
    );
    actions.push(action);
    let (state, action) = app.step(
        state,
        PipelineEvent::ImagesGenerated { outcome: Some(vec![generated_png_image(64, 64)]) },
    );
    actions.push(action);
    assert!(matches!(actions.last().unwrap(), PipelineAction::UploadAll { .. }));

    let (state, action) = app.step(
        state,
        PipelineEvent::UploadsFinished {
            outcome: Some((vec![String::from("o0")], vec![String::from("p0")])),
        },
    );
    actions.push(action);

    match &state {
        PipelineState::Failed { stage, error } => {
            assert_eq!(*stage, Stage::Replied);
            assert_eq!(*error, PipelineError::MissingReplyToken);
        },
        _ => panic!("expected the run to fail at the reply stage"),
    }
    for action in &actions {
        assert!(!matches!(action, PipelineAction::SendReply { .. }));
        assert!(!matches!(action, PipelineAction::SaveOutbound { .. }));
    }
}

#[test]
fn no_message_event_is_fatal_at_parse() {
    let app = app();
    let payload = WebhookEvent { destination: String::from("dest"), events: vec![] };
    let (state, action) = app.step(
        PipelineState::Received { payload },
        PipelineEvent::Begin,
    );
    match &state {
        PipelineState::Failed { stage, error } => {
            assert_eq!(*stage, Stage::Parsed);
            assert_eq!(*error, PipelineError::NoMessageEvent);
        },
        _ => panic!("expected the run to abort"),
    }
    assert!(matches!(action, PipelineAction::Abort { .. }));
}

#[test]
fn mismatched_upload_results_fail_the_image_branch() {
    let app = app();
    let (state, _) = app.step(
        PipelineState::Received { payload: delivery("draw", "user-5", Some("tok-5")) },
        PipelineEvent::Begin,
    );
    let (state, _) = app.step(state, PipelineEvent::LoadingShown { ok: true });
    let (state, _) = app.step(
        state,
        PipelineEvent::Classified {
            outcome: Some((Context::new(String::from("Art")), UserDemand::CreateImage)),
        },
    );
    let (state, _) = app.step(state, PipelineEvent::HistoryListed { outcome: Some(vec![]) });
    let (state, _) = app.step(state, PipelineEvent::InboundSaved { ok: true });
    let (state, _) = app.step(
        state,
        PipelineEvent::ImagePromptReady { outcome: Some(String::from("a cat")) },
    );
    let (state, _) = app.step(
        state,
        PipelineEvent::ImagesGenerated { outcome: Some(vec![generated_png_image(64, 64)]) },
    );
    let (state, _) = app.step(
        state,
        PipelineEvent::UploadsFinished {
            outcome: Some((vec![String::from("o0")], vec![])),
        },
    );
    match &state {
        PipelineState::Failed { stage, error } => {
            assert_eq!(*stage, Stage::ImageGenerating);
            assert_eq!(*error, PipelineError::Upload);
        },
        _ => panic!("expected the image branch to fail as one unit"),
    }
}

#[test]
fn failed_delivery_leaves_no_outbound_save() {
    let app = app();
    let (state, _) = app.step(
        PipelineState::Received { payload: delivery("Hello", "user-6", Some("tok-6")) },
        PipelineEvent::Begin,
    );
    let (state, _) = app.step(state, PipelineEvent::LoadingShown { ok: true });
    let (state, _) = app.step(
        state,
        PipelineEvent::Classified {
            outcome: Some((Context::new(String::from("Greeting")), UserDemand::Chat)),
        },
    );
    let (state, _) = app.step(state, PipelineEvent::HistoryListed { outcome: Some(vec![]) });
    let (state, _) = app.step(state, PipelineEvent::InboundSaved { ok: true });
    let (state, _) = app.step(
        state,
        PipelineEvent::ChatCompleted { outcome: Some(String::from("Hi!")) },
    );
    let (state, action) = app.step(state, PipelineEvent::ReplyDelivered { ok: false });
    match &state {
        PipelineState::Failed { stage, error } => {
            assert_eq!(*stage, Stage::Replied);
            assert_eq!(*error, PipelineError::Delivery);
        },
        _ => panic!("expected the run to fail at the reply stage"),
    }
    assert!(!matches!(action, PipelineAction::SaveOutbound { .. }));
}

#[test]
fn failed_history_listing_is_a_persistence_error() {
    let app = app();
    let (state, _) = app.step(
        PipelineState::Received { payload: delivery("Hello", "user-7", Some("tok-7")) },
        PipelineEvent::Begin,
    );
    let (state, _) = app.step(state, PipelineEvent::LoadingShown { ok: true });
    let (state, _) = app.step(
        state,
        PipelineEvent::Classified {
            outcome: Some((Context::new(String::from("Greeting")), UserDemand::Chat)),
        },
    );
    let (state, _) = app.step(state, PipelineEvent::HistoryListed { outcome: None });
    match &state {
        PipelineState::Failed { stage, error } => {
            assert_eq!(*stage, Stage::HistoryLoaded);
            assert_eq!(*error, PipelineError::Persistence);
        },
        _ => panic!("expected the run to abort"),
    }
}

#[test]
fn chat_prompt_replays_loaded_history() {
    let app = app();
    let history_user = unai::message::Message {
        user: unai::user::User { id: String::from("user-8") },
        from: Actor::User,
        text: String::from("earlier question"),
        context: Some(Context::new(String::from("Old"))),
        reply_token: None,
        image: None,
    };
    let history_bot = unai::message::Message {
        user: unai::user::User { id: String::from("user-8") },
        from: Actor::Bot,
        text: String::from("earlier answer"),
        context: Some(Context::new(String::from("Old"))),
        reply_token: None,
        image: None,
    };
    let (state, _) = app.step(
        PipelineState::Received { payload: delivery("and now?", "user-8", Some("tok-8")) },
        PipelineEvent::Begin,
    );
    let (state, _) = app.step(state, PipelineEvent::LoadingShown { ok: true });
    let (state, _) = app.step(
        state,
        PipelineEvent::Classified {
            outcome: Some((Context::new(String::from("FollowUp")), UserDemand::Chat)),
        },
    );
    let (state, _) = app.step(
        state,
        PipelineEvent::HistoryListed { outcome: Some(vec![history_user, history_bot]) },
    );
    let (_, action) = app.step(state, PipelineEvent::InboundSaved { ok: true });
    match &action {
        PipelineAction::CompleteChat { request } => {
            let turns: Vec<(&str, &str)> = request
                .messages
                .iter()
                .map(|m| (m.role.as_str(), m.content.as_str()))
                .collect();
            assert_eq!(
                turns,
                vec![
                    ("user", "earlier question"),
                    ("assistant", "earlier answer"),
                    ("user", "and now?"),
                ]
            );
        },
        _ => panic!("expected the chat branch"),
    }
}
