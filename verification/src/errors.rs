use vstd::prelude::*;

verus! {

/// The stages a pipeline run moves through, in order. A run that fails is
/// labelled with the stage it could not complete.
#[derive(Clone, Copy, Debug, PartialEq, Eq, Structural)]
pub enum Stage {
    Received,
    Parsed,
    Classified,
    HistoryLoaded,
    Chatting,
    ImageGenerating,
    Replied,
    Persisted,
}

/// Every way one pipeline run can fail. A failure at any stage is fatal for
/// that delivery: there is no retry and no compensation.
#[derive(Clone, Copy, Debug, PartialEq, Eq, Structural)]
pub enum PipelineError {
    /// The inbound payload holds no message-typed event.
    NoMessageEvent,
    /// The first message-typed event carries a payload kind the pipeline
    /// cannot read (an inbound image, for example).
    UnsupportedMessage,
    /// The classifier call failed, its structured response did not parse, or
    /// the demand label was outside the closed enum.
    Classification,
    /// Chat completion or image generation failed.
    Generation,
    /// A generated image payload could not be decoded.
    ImageDecode,
    /// An upload did not complete, or the upload results cannot be paired.
    Upload,
    /// The inbound event carried no reply token, so no reply can be sent.
    MissingReplyToken,
    /// The reply call to the messaging platform failed.
    Delivery,
    /// The history store failed to save or list messages.
    Persistence,
}

} // verus!
