use crate::context::Context;
use crate::errors::PipelineError;
use crate::message::Actor;
use crate::trusted::{json_str_field, json_string_field};
use vstd::prelude::*;

verus! {

/// The chat-API role a conversation actor replays as.
pub open spec fn spec_role_of(a: Actor) -> Seq<char> {
    match a {
        Actor::User => "user"@,
        Actor::Bot => "assistant"@,
    }
}

/// Renders an actor as its chat-API role.
pub fn role_of(a: Actor) -> (r: String)
    ensures
        r@ == spec_role_of(a),
{
    match a {
        Actor::User => String::from_str("user"),
        Actor::Bot => String::from_str("assistant"),
    }
}

/// One chat-API message: a role and its text.
#[derive(Debug)]
pub struct Message {
    pub role: String,
    pub content: String,
}

impl Clone for Message {
    fn clone(&self) -> (res: Self)
        ensures
            res == *self,
    {
        Message { role: self.role.clone(), content: self.content.clone() }
    }
}

/// Whether a chat-API message replays the given conversation turn.
pub open spec fn is_turn_of(t: Message, m: crate::message::Message) -> bool {
    t.role@ == spec_role_of(m.from) && t.content == m.text
}

/// Whether a list of chat-API messages replays the given turns in order.
pub open spec fn is_turns_of(ts: Seq<Message>, ms: Seq<crate::message::Message>) -> bool {
    ts.len() == ms.len() && forall|i: int|
        0 <= i < ms.len() ==> #[trigger] is_turn_of(ts[i], ms[i])
}

/// Maps conversation turns to chat-API messages, keeping order.
pub fn turns_of_messages(messages: &Vec<crate::message::Message>) -> (r: Vec<Message>)
    ensures
        is_turns_of(r@, messages@),
{
    let mut r: Vec<Message> = Vec::new();
    let mut i: usize = 0;
    while i < messages.len()
        invariant
            i <= messages.len(),
            r@.len() == i,
            forall|k: int| 0 <= k < i ==> #[trigger] is_turn_of(r@[k], messages@[k]),
        decreases messages.len() - i,
    {
        r.push(Message { role: role_of(messages[i].from), content: messages[i].text.clone() });
        i = i + 1;
    }
    r
}

/// The structured-output format a completions request may demand.
#[derive(Debug)]
pub struct JsonSchema {
    pub name: String,
    pub schema: String,
    pub strict: bool,
}

#[derive(Debug)]
pub struct ResponseFormat {
    pub kind: String,
    pub json_schema: JsonSchema,
}

impl ResponseFormat {
    /// A strict json_schema response format under the given name.
    pub fn new(schema_name: String, json_schema: String) -> (r: ResponseFormat)
        ensures
            r.kind@ == "json_schema"@,
            r.json_schema.name == schema_name,
            r.json_schema.schema == json_schema,
            r.json_schema.strict,
    {
        ResponseFormat {
            kind: String::from_str("json_schema"),
            json_schema: JsonSchema { name: schema_name, schema: json_schema, strict: true },
        }
    }
}

/// A chat-completions request. The temperature is held in tenths so the
/// request stays within plain integer values; the driver scales it.
#[derive(Debug)]
pub struct CompletionsRequest {
    pub model: String,
    pub messages: Vec<Message>,
    pub temperature_tenths: Option<u8>,
    pub response_format: Option<ResponseFormat>,
}

/// Token accounting of one completions response.
#[derive(Clone, Copy, Debug, PartialEq, Eq, Structural)]
pub struct Usage {
    pub prompt_tokens: i64,
    pub completion_tokens: i64,
    pub total_tokens: i64,
}

/// One completion choice.
#[derive(Debug)]
pub struct Choice {
    pub index: i64,
    pub message: Message,
    pub finish_reason: Option<String>,
}

/// A chat-completions response, reduced to the plain values the pipeline
/// reads.
#[derive(Debug)]
pub struct CompletionsResponse {
    pub id: String,
    pub object: String,
    pub created: i64,
    pub model: String,
    pub system_fingerprint: String,
    pub choices: Vec<Choice>,
    pub usage: Usage,
}

/// The text of the first completion choice; an empty choice list is a
/// generation failure.
pub fn first_choice_text(response: &CompletionsResponse) -> (r: Result<String, PipelineError>)
    ensures
        r is Ok <==> response.choices@.len() > 0,
        r matches Ok(t) ==> t == response.choices@[0].message.content,
        r is Err ==> r == Err::<String, PipelineError>(PipelineError::Generation),
{
    if response.choices.len() > 0 {
        Ok(response.choices[0].message.content.clone())
    } else {
        Err(PipelineError::Generation)
    }
}

/// The image-generation model.
#[derive(Clone, Copy, Debug, PartialEq, Eq, Structural)]
pub enum ImageModel {
    DallE2,
    DallE3,
}

pub open spec fn spec_model_label(m: ImageModel) -> Seq<char> {
    match m {
        ImageModel::DallE2 => "dall-e-2"@,
        ImageModel::DallE3 => "dall-e-3"@,
    }
}

impl ImageModel {
    /// Reads a model from its configuration label; anything else is
    /// rejected.
    pub fn parse(value: String) -> (r: Option<ImageModel>)
        ensures
            r == Some(ImageModel::DallE2) <==> value@ == "dall-e-2"@,
            r == Some(ImageModel::DallE3) <==> value@ == "dall-e-3"@,
            r is None <==> (value@ != "dall-e-2"@ && value@ != "dall-e-3"@),
    {
        proof {
            reveal_strlit("dall-e-2");
            reveal_strlit("dall-e-3");
            assert("dall-e-2"@[7] != "dall-e-3"@[7]);
            assert("dall-e-2"@ != "dall-e-3"@);
        }
        if value == String::from_str("dall-e-2") {
            Some(ImageModel::DallE2)
        } else if value == String::from_str("dall-e-3") {
            Some(ImageModel::DallE3)
        } else {
            None
        }
    }

    /// The model's wire label.
    pub fn label(&self) -> (r: String)
        ensures
            r@ == spec_model_label(*self),
    {
        match self {
            ImageModel::DallE2 => String::from_str("dall-e-2"),
            ImageModel::DallE3 => String::from_str("dall-e-3"),
        }
    }
}

/// The requested size of generated images.
#[derive(Clone, Copy, Debug, PartialEq, Eq, Structural)]
pub enum ImageSize {
    Small,
    Medium,
    Large,
    Landscape,
    Portrait,
}

pub open spec fn spec_size_label(s: ImageSize) -> Seq<char> {
    match s {
        ImageSize::Small => "256x256"@,
        ImageSize::Medium => "512x512"@,
        ImageSize::Large => "1024x1024"@,
        ImageSize::Landscape => "1792x1024"@,
        ImageSize::Portrait => "1024x1792"@,
    }
}

/// The configuration label a size is read from (the wire label it is
/// written as differs; see `spec_size_label`).
pub open spec fn spec_size_config_label(s: ImageSize) -> Seq<char> {
    match s {
        ImageSize::Small => "small"@,
        ImageSize::Medium => "medium"@,
        ImageSize::Large => "large"@,
        ImageSize::Landscape => "landscape"@,
        ImageSize::Portrait => "portrait"@,
    }
}

impl ImageSize {
    /// Reads a size from its configuration label; anything else is
    /// rejected.
    pub fn parse(value: String) -> (r: Option<ImageSize>)
        ensures
            r == Some(ImageSize::Small) <==> value@ == "small"@,
            r == Some(ImageSize::Medium) <==> value@ == "medium"@,
            r == Some(ImageSize::Large) <==> value@ == "large"@,
            r == Some(ImageSize::Landscape) <==> value@ == "landscape"@,
            r == Some(ImageSize::Portrait) <==> value@ == "portrait"@,
            r is None <==> (value@ != "small"@ && value@ != "medium"@ && value@ != "large"@
                && value@ != "landscape"@ && value@ != "portrait"@),
    {
        proof {
            reveal_strlit("small");
            reveal_strlit("medium");
            reveal_strlit("large");
            reveal_strlit("landscape");
            reveal_strlit("portrait");
            assert("small"@.len() == 5 && "medium"@.len() == 6 && "large"@.len() == 5
                && "landscape"@.len() == 9 && "portrait"@.len() == 8);
            assert("small"@[0] != "large"@[0]);
            assert("small"@ != "large"@ && "small"@ != "medium"@ && "small"@ != "landscape"@
                && "small"@ != "portrait"@ && "medium"@ != "large"@ && "medium"@ != "landscape"@
                && "medium"@ != "portrait"@ && "large"@ != "landscape"@ && "large"@ != "portrait"@
                && "landscape"@ != "portrait"@);
        }
        if value == String::from_str("small") {
            Some(ImageSize::Small)
        } else if value == String::from_str("medium") {
            Some(ImageSize::Medium)
        } else if value == String::from_str("large") {
            Some(ImageSize::Large)
        } else if value == String::from_str("landscape") {
            Some(ImageSize::Landscape)
        } else if value == String::from_str("portrait") {
            Some(ImageSize::Portrait)
        } else {
            None
        }
    }

    /// The size's wire label, width by height.
    pub fn to_num(&self) -> (r: String)
        ensures
            r@ == spec_size_label(*self),
    {
        match self {
            ImageSize::Small => String::from_str("256x256"),
            ImageSize::Medium => String::from_str("512x512"),
            ImageSize::Large => String::from_str("1024x1024"),
            ImageSize::Landscape => String::from_str("1792x1024"),
            ImageSize::Portrait => String::from_str("1024x1792"),
        }
    }
}

/// The image-generation configuration: model, size and how many images
/// one request asks for.
#[derive(Clone, Copy, Debug, PartialEq, Eq, Structural)]
pub struct ImageConfig {
    pub model: ImageModel,
    pub size: ImageSize,
    pub count: i64,
}

impl ImageConfig {
    pub fn new(model: ImageModel, size: ImageSize, count: i64) -> (r: ImageConfig)
        ensures
            r == (ImageConfig { model, size, count }),
    {
        ImageConfig { model, size, count }
    }

    /// Builds the configuration from its configuration labels; either
    /// label outside its closed set rejects the whole configuration.
    pub fn from_labels(model: String, size: String, count: i64) -> (r: Option<ImageConfig>)
        ensures
            r is Some <==> ((model@ == "dall-e-2"@ || model@ == "dall-e-3"@) && (size@ == "small"@
                || size@ == "medium"@ || size@ == "large"@ || size@ == "landscape"@ || size@
                == "portrait"@)),
            r matches Some(c) ==> spec_model_label(c.model) == model@ && spec_size_config_label(
                c.size,
            ) == size@ && c.count == count,
    {
        let m = match ImageModel::parse(model) {
            Some(m) => m,
            None => {
                return None;
            },
        };
        let s = match ImageSize::parse(size) {
            Some(s) => s,
            None => {
                return None;
            },
        };
        proof {
            assert(m == ImageModel::DallE2 ==> model@ == "dall-e-2"@);
            assert(m == ImageModel::DallE3 ==> model@ == "dall-e-3"@);
            assert(spec_model_label(m) == model@);
            if size@ == "small"@ {
                assert(s == ImageSize::Small);
            } else if size@ == "medium"@ {
                assert(s == ImageSize::Medium);
            } else if size@ == "large"@ {
                assert(s == ImageSize::Large);
            } else if size@ == "landscape"@ {
                assert(s == ImageSize::Landscape);
            } else {
                assert(size@ == "portrait"@);
                assert(s == ImageSize::Portrait);
            }
            assert(spec_size_config_label(s) == size@);
        }
        Some(ImageConfig { model: m, size: s, count })
    }
}

/// An image-generation request.
#[derive(Debug)]
pub struct GenerateImageRequest {
    pub model: String,
    pub prompt: String,
    pub n: i64,
    pub size: String,
    pub response_format: Option<GenImageResponseFormat>,
}

/// How generated images are delivered.
#[derive(Clone, Copy, Debug, PartialEq, Eq, Structural)]
pub enum GenImageResponseFormat {
    Url,
    B64Json,
}

/// The classifier's structured reply: a short context label and a demand
/// label, both plain text until they are validated.
#[derive(Debug)]
pub struct UserDemand {
    pub context: String,
    pub user_demand: String,
}

/// Validates the classifier's structured reply: wraps the context label
/// and maps the demand label into the closed demand enum. A demand label
/// outside the enum is a classification error, never a default.
pub fn classification_of(reply: UserDemand) -> (r: Result<
    (Context, crate::user::UserDemand),
    PipelineError,
>)
    ensures
        r is Ok <==> (reply.user_demand@ == "Chat"@ || reply.user_demand@ == "CreateImage"@),
        r matches Ok(c) ==> c.0.name == reply.context && (c.1 == crate::user::UserDemand::Chat
            <==> reply.user_demand@ == "Chat"@) && (c.1 == crate::user::UserDemand::CreateImage
            <==> reply.user_demand@ == "CreateImage"@),
        r is Err ==> r == Err::<(Context, crate::user::UserDemand), PipelineError>(
            PipelineError::Classification,
        ),
{
    let UserDemand { context, user_demand } = reply;
    match crate::user::UserDemand::try_from(user_demand) {
        Ok(d) => Ok((Context::new(context), d)),
        Err(e) => Err(e),
    }
}

/// Reads the classifier's structured content: a JSON object holding a
/// context label and a demand label. It succeeds exactly when the content
/// holds a string context member and a demand member inside the closed
/// enum; it fails, always with a classification error, exactly when the
/// content does not parse, a member is missing or not a string, or the
/// demand label is outside the enum.
pub fn interpret_classification(content: &str) -> (r: Result<
    (Context, crate::user::UserDemand),
    PipelineError,
>)
    ensures
        r is Ok <==> (json_str_field(content@, "context"@) is Some && (json_str_field(
            content@,
            "user_demand"@,
        ) == Some("Chat"@) || json_str_field(content@, "user_demand"@) == Some("CreateImage"@))),
        r matches Ok(c) ==> {
            &&& json_str_field(content@, "context"@) == Some(c.0.name@)
            &&& (c.1 == crate::user::UserDemand::Chat <==> json_str_field(
                content@,
                "user_demand"@,
            ) == Some("Chat"@))
            &&& (c.1 == crate::user::UserDemand::CreateImage <==> json_str_field(
                content@,
                "user_demand"@,
            ) == Some("CreateImage"@))
        },
        r is Err ==> r == Err::<(Context, crate::user::UserDemand), PipelineError>(
            PipelineError::Classification,
        ),
{
    let context = match json_string_field(content, "context") {
        Some(s) => s,
        None => {
            return Err(PipelineError::Classification);
        },
    };
    let user_demand = match json_string_field(content, "user_demand") {
        Some(s) => s,
        None => {
            return Err(PipelineError::Classification);
        },
    };
    classification_of(UserDemand { context, user_demand })
}

/// Whether a request is the chat-completion request for the given turns:
/// the turns replayed in order, the chat model, a temperature of 0.7 and
/// free-form output.
pub open spec fn is_chat_request(r: CompletionsRequest, ms: Seq<crate::message::Message>) -> bool {
    &&& r.model@ == "gpt-4o"@
    &&& r.temperature_tenths == Some(7u8)
    &&& r.response_format is None
    &&& is_turns_of(r.messages@, ms)
}

/// Whether a request is the demand-detection request for the given text:
/// the detection system prompt, then the text as the one user turn, the
/// small model at temperature 0 and the strict structured-output schema.
pub open spec fn is_detect_request(r: CompletionsRequest, text: Seq<char>) -> bool {
    &&& r.model@ == "gpt-4o-mini"@
    &&& r.temperature_tenths == Some(0u8)
    &&& r.messages@.len() == 2
    &&& r.messages@[0].role@ == "system"@
    &&& r.messages@[0].content@
        == "You are an expert at detecting user demand. \nDescribe the user's demand as a short title for context field.\nAND Choose the most appropriate label for context from the following options:\n- Chat\n- CreateImage"@
    &&& r.messages@[1].role@ == "user"@
    &&& r.messages@[1].content@ == text
    &&& r.response_format matches Some(f) && f.kind@ == "json_schema"@ && f.json_schema.name@
        == "user_demand"@ && f.json_schema.strict && f.json_schema.schema@
        == "{\"type\":\"object\",\"properties\":{\"context\":{\"type\":\"string\"},\"user_demand\":{\"type\":\"string\",\"enum\":[\"Chat\",\"CreateImage\"]}},\"required\":[\"context\",\"user_demand\"],\"additionalProperties\":false}"@
}

/// Whether a request is the image-prompt request for the given turns: the
/// image-prompt system prompt, then the turns replayed in order, on the
/// small model at temperature 0.7 with free-form output.
pub open spec fn is_image_prompt_request(
    r: CompletionsRequest,
    ms: Seq<crate::message::Message>,
) -> bool {
    &&& r.model@ == "gpt-4o-mini"@
    &&& r.temperature_tenths == Some(7u8)
    &&& r.response_format is None
    &&& r.messages@.len() == ms.len() + 1
    &&& r.messages@[0].role@ == "system"@
    &&& r.messages@[0].content@
        == "You are an expert at creating image prompts.\nYou will be given a chat history.\nYou need to create an image prompt mainly for the latest message.\nBut you can also use previous messages to create the prompt."@
    &&& forall|i: int| 0 <= i < ms.len() ==> #[trigger] is_turn_of(r.messages@[i + 1], ms[i])
}

/// Whether a request is the image-generation request the configuration
/// and prompt call for: base64 delivery, and model, size and count from
/// the configuration.
pub open spec fn is_generate_image_request(
    r: GenerateImageRequest,
    cfg: ImageConfig,
    prompt: Seq<char>,
) -> bool {
    &&& r.model@ == spec_model_label(cfg.model)
    &&& r.prompt@ == prompt
    &&& r.n == cfg.count
    &&& r.size@ == spec_size_label(cfg.size)
    &&& r.response_format == Some(GenImageResponseFormat::B64Json)
}

/// A new user's empty history still yields a valid one-turn prompt for
/// both branches: the chat request replays just the current turn, and the
/// image-prompt request its system prompt followed by the current turn.
pub proof fn lemma_new_user_prompt(
    chat_req: CompletionsRequest,
    image_req: CompletionsRequest,
    m: crate::message::Message,
)
    requires
        is_chat_request(chat_req, seq![m]),
        is_image_prompt_request(image_req, seq![m]),
    ensures
        chat_req.messages@.len() == 1 && is_turn_of(chat_req.messages@[0], m),
        image_req.messages@.len() == 2 && image_req.messages@[0].role@ == "system"@ && is_turn_of(
            image_req.messages@[1],
            m,
        ),
{
    assert(is_turn_of(chat_req.messages@[0], seq![m][0]));
    let i: int = 0;
    assert(is_turn_of(image_req.messages@[i + 1], seq![m][i]));
}

/// The chat and image-generation capability: holds the API key the driver
/// sends requests under, and the image-generation configuration.
#[derive(Debug)]
pub struct Gpt {
    pub api_key: String,
    pub image_config: ImageConfig,
}

impl Clone for Gpt {
    fn clone(&self) -> (res: Self)
        ensures
            res == *self,
    {
        Gpt { api_key: self.api_key.clone(), image_config: self.image_config }
    }
}

impl Gpt {
    pub fn new(api_key: String, image_config: ImageConfig) -> (r: Gpt)
        ensures
            r.api_key == api_key,
            r.image_config == image_config,
    {
        Gpt { api_key, image_config }
    }

    /// The chat-completion request: the given turns replayed in order,
    /// ending in the current one.
    pub fn chat_request(&self, messages: &Vec<crate::message::Message>) -> (r: CompletionsRequest)
        ensures
            is_chat_request(r, messages@),
    {
        CompletionsRequest {
            model: String::from_str("gpt-4o"),
            messages: turns_of_messages(messages),
            temperature_tenths: Some(7),
            response_format: None,
        }
    }

    /// The demand-detection request for a raw user utterance.
    pub fn detect_demand_request(&self, chat: String) -> (r: CompletionsRequest)
        ensures
            is_detect_request(r, chat@),
    {
        let mut messages: Vec<Message> = Vec::new();
        messages.push(
            Message {
                role: String::from_str("system"),
                content: String::from_str(
                    "You are an expert at detecting user demand. \nDescribe the user's demand as a short title for context field.\nAND Choose the most appropriate label for context from the following options:\n- Chat\n- CreateImage",
                ),
            },
        );
        messages.push(Message { role: String::from_str("user"), content: chat });
        let response_format = ResponseFormat::new(
            String::from_str("user_demand"),
            String::from_str(
                "{\"type\":\"object\",\"properties\":{\"context\":{\"type\":\"string\"},\"user_demand\":{\"type\":\"string\",\"enum\":[\"Chat\",\"CreateImage\"]}},\"required\":[\"context\",\"user_demand\"],\"additionalProperties\":false}",
            ),
        );
        CompletionsRequest {
            model: String::from_str("gpt-4o-mini"),
            messages,
            temperature_tenths: Some(0),
            response_format: Some(response_format),
        }
    }

    /// The image-prompt request: the image-prompt system prompt, then the
    /// given turns replayed in order.
    pub fn create_image_prompt_request(&self, messages: &Vec<crate::message::Message>) -> (r:
        CompletionsRequest)
        ensures
            is_image_prompt_request(r, messages@),
    {
        let mut out: Vec<Message> = Vec::new();
        out.push(
            Message {
                role: String::from_str("system"),
                content: String::from_str(
                    "You are an expert at creating image prompts.\nYou will be given a chat history.\nYou need to create an image prompt mainly for the latest message.\nBut you can also use previous messages to create the prompt.",
                ),
            },
        );
        let mut i: usize = 0;
        while i < messages.len()
            invariant
                i <= messages.len(),
                out@.len() == i + 1,
                out@[0].role@ == "system"@,
                out@[0].content@
                    == "You are an expert at creating image prompts.\nYou will be given a chat history.\nYou need to create an image prompt mainly for the latest message.\nBut you can also use previous messages to create the prompt."@,
                forall|k: int| 0 <= k < i ==> #[trigger] is_turn_of(out@[k + 1], messages@[k]),
            decreases messages.len() - i,
        {
            out.push(
                Message { role: role_of(messages[i].from), content: messages[i].text.clone() },
            );
            i = i + 1;
        }
        CompletionsRequest {
            model: String::from_str("gpt-4o-mini"),
            messages: out,
            temperature_tenths: Some(7),
            response_format: None,
        }
    }

    /// The image-generation request for a prompt, under the configured
    /// model, size and count, asking for base64 delivery.
    pub fn generate_image_request(&self, prompt: String) -> (r: GenerateImageRequest)
        ensures
            is_generate_image_request(r, self.image_config, prompt@),
    {
        GenerateImageRequest {
            model: self.image_config.model.label(),
            prompt,
            n: self.image_config.count,
            size: self.image_config.size.to_num(),
            response_format: Some(GenImageResponseFormat::B64Json),
        }
    }
}

/// A plain chat capability: one user turn, no history, on the chat model.
#[derive(Debug)]
pub struct OpenAiApi {
    pub api_key: String,
    pub project_id: String,
}

impl Clone for OpenAiApi {
    fn clone(&self) -> (res: Self)
        ensures
            res == *self,
    {
        OpenAiApi { api_key: self.api_key.clone(), project_id: self.project_id.clone() }
    }
}

impl OpenAiApi {
    pub fn new(api_key: String, project_id: String) -> (r: OpenAiApi)
        ensures
            r.api_key == api_key,
            r.project_id == project_id,
    {
        OpenAiApi { api_key, project_id }
    }

    /// The single-turn chat request for a raw utterance.
    pub fn send_chat_request(&self, chat: String) -> (r: CompletionsRequest)
        ensures
            r.model@ == "gpt-4o"@,
            r.temperature_tenths is None,
            r.response_format is None,
            r.messages@.len() == 1,
            r.messages@[0].role@ == "user"@,
            r.messages@[0].content == chat,
    {
        let mut messages: Vec<Message> = Vec::new();
        messages.push(Message { role: String::from_str("user"), content: chat });
        CompletionsRequest {
            model: String::from_str("gpt-4o"),
            messages,
            temperature_tenths: None,
            response_format: None,
        }
    }
}

} // verus!
