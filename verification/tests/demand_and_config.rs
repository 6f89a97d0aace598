use unai::context::Context;
use unai::errors::PipelineError;
use unai::gpt::{classification_of, role_of, ImageConfig, ImageModel, ImageSize, ResponseFormat};
use unai::message::Actor;
use unai::user::UserDemand;

#[test]
fn demand_chat_label() {
    assert_eq!(UserDemand::try_from(String::from("Chat")), Ok(UserDemand::Chat));
}

#[test]
fn demand_create_image_label() {
    assert_eq!(UserDemand::try_from(String::from("CreateImage")), Ok(UserDemand::CreateImage));
}

#[test]
fn demand_unknown_label_is_classification_error() {
    assert_eq!(
        UserDemand::try_from(String::from("Draw")),
        Err(PipelineError::Classification)
    );
    assert_eq!(
        UserDemand::try_from(String::from("chat")),
        Err(PipelineError::Classification)
    );
    assert_eq!(UserDemand::try_from(String::new()), Err(PipelineError::Classification));
}

#[test]
fn image_model_parse_labels() {
    assert_eq!(ImageModel::parse(String::from("dall-e-2")), Some(ImageModel::DallE2));
    assert_eq!(ImageModel::parse(String::from("dall-e-3")), Some(ImageModel::DallE3));
    assert_eq!(ImageModel::parse(String::from("dall-e-4")), None);
}

#[test]
fn image_model_labels_round_trip() {
    assert_eq!(ImageModel::DallE2.label(), "dall-e-2");
    assert_eq!(ImageModel::DallE3.label(), "dall-e-3");
}

#[test]
fn image_size_parse_labels() {
    assert_eq!(ImageSize::parse(String::from("small")), Some(ImageSize::Small));
    assert_eq!(ImageSize::parse(String::from("medium")), Some(ImageSize::Medium));
    assert_eq!(ImageSize::parse(String::from("large")), Some(ImageSize::Large));
    assert_eq!(ImageSize::parse(String::from("landscape")), Some(ImageSize::Landscape));
    assert_eq!(ImageSize::parse(String::from("portrait")), Some(ImageSize::Portrait));
    assert_eq!(ImageSize::parse(String::from("huge")), None);
}

#[test]
fn image_size_wire_labels() {
    assert_eq!(ImageSize::Small.to_num(), "256x256");
    assert_eq!(ImageSize::Medium.to_num(), "512x512");
    assert_eq!(ImageSize::Large.to_num(), "1024x1024");
    assert_eq!(ImageSize::Landscape.to_num(), "1792x1024");
    assert_eq!(ImageSize::Portrait.to_num(), "1024x1792");
}

#[test]
fn image_config_from_labels() {
    let cfg = ImageConfig::from_labels(String::from("dall-e-3"), String::from("large"), 2);
    assert_eq!(
        cfg,
        Some(ImageConfig { model: ImageModel::DallE3, size: ImageSize::Large, count: 2 })
    );
    assert_eq!(ImageConfig::from_labels(String::from("dall-e"), String::from("large"), 2), None);
    assert_eq!(ImageConfig::from_labels(String::from("dall-e-3"), String::from("big"), 2), None);
}

#[test]
fn response_format_is_strict_json_schema() {
    let f = ResponseFormat::new(String::from("user_demand"), String::from("{}"));
    assert_eq!(f.kind, "json_schema");
    assert_eq!(f.json_schema.name, "user_demand");
    assert_eq!(f.json_schema.schema, "{}");
    assert!(f.json_schema.strict);
}

#[test]
fn roles_of_actors() {
    assert_eq!(role_of(Actor::User), "user");
    assert_eq!(role_of(Actor::Bot), "assistant");
}

#[test]
fn classification_of_valid_reply() {
    let reply = unai::gpt::UserDemand {
        context: String::from("Greeting"),
        user_demand: String::from("Chat"),
    };
    let (ctx, demand) = classification_of(reply).unwrap();
    assert_eq!(ctx.name, "Greeting");
    assert_eq!(demand, UserDemand::Chat);
}

#[test]
fn classification_of_out_of_enum_label_fails() {
    let reply = unai::gpt::UserDemand {
        context: String::from("Doodle"),
        user_demand: String::from("Paint"),
    };
    assert!(matches!(classification_of(reply), Err(PipelineError::Classification)));
}

#[test]
fn context_ids_are_fresh_and_hyphenated() {
    let a = Context::new(String::from("one"));
    let b = Context::new(String::from("two"));
    assert_eq!(a.id.to_string().len(), 36);
    assert_eq!(b.id.to_string().len(), 36);
    assert_ne!(a.id.to_string(), b.id.to_string());
    assert_eq!(a.name, "one");
}
