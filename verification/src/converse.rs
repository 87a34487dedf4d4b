use vstd::prelude::*;

verus! {

/// One content block of the model's reply, as far as the consumer
/// reads it: text, or some other kind of block.
pub enum ReplyContent {
    Text(String),
    Other,
}

/// The reply's output: a message made of content blocks, or another
/// kind of output.
pub enum ReplyOutput {
    Message(Vec<ReplyContent>),
    Other,
}

/// The model-inference reply, reduced to the parts the consumer
/// inspects.
pub struct ConverseReply {
    pub output: Option<ReplyOutput>,
}

/// The failure of the conversational path, carrying a local diagnostic
/// reason.
#[derive(Debug)]
pub struct BedrockConverseError {
    pub reason: String,
}

/// The service error classes of the converse call that the consumer
/// tells apart; every other class collapses to `Other`.
pub enum ConverseServiceError {
    ModelTimeout,
    ModelNotReady,
    Other,
}

/// The diagnostic reason for each service error class.
pub open spec fn service_reason(e: ConverseServiceError) -> Seq<char> {
    match e {
        ConverseServiceError::ModelTimeout => "Model took too long"@,
        ConverseServiceError::ModelNotReady => "Model is not ready"@,
        ConverseServiceError::Other => "Unknown"@,
    }
}

/// Why no text can be extracted from a reply, if so; `None` when the
/// reply carries text.
pub open spec fn extraction_error(reply: ConverseReply) -> Option<Seq<char>> {
    match reply.output {
        None => Some("no output"@),
        Some(ReplyOutput::Other) => Some("output not a message"@),
        Some(ReplyOutput::Message(content)) => {
            if content@.len() == 0 {
                Some("no content in message"@)
            } else {
                match content@[0] {
                    ReplyContent::Text(t) => None,
                    ReplyContent::Other => Some("content is not text"@),
                }
            }
        },
    }
}

/// The text of a reply's first content block.
pub open spec fn extracted_text(reply: ConverseReply) -> Seq<char>
    recommends
        extraction_error(reply) is None,
{
    match reply.output {
        Some(ReplyOutput::Message(content)) => {
            if content@.len() > 0 {
                match content@[0] {
                    ReplyContent::Text(t) => t@,
                    ReplyContent::Other => Seq::empty(),
                }
            } else {
                Seq::empty()
            }
        },
        _ => Seq::empty(),
    }
}

impl BedrockConverseError {
    pub fn from_reason(value: &str) -> (r: BedrockConverseError)
        ensures
            r.reason@ == value@,
    {
        BedrockConverseError { reason: value.to_owned() }
    }

    pub fn from_service_error(value: &ConverseServiceError) -> (r: BedrockConverseError)
        ensures
            r.reason@ == service_reason(*value),
    {
        match value {
            ConverseServiceError::ModelTimeout => Self::from_reason("Model took too long"),
            ConverseServiceError::ModelNotReady => Self::from_reason("Model is not ready"),
            ConverseServiceError::Other => Self::from_reason("Unknown"),
        }
    }

    /// The user-facing description, naming the model that could not be
    /// invoked and the reason.
    pub fn display_text(&self) -> (r: String)
        ensures
            r@ == "Can't invoke 'amazon.titan-text-premier-v1:0'. Reason: "@ + self.reason@,
    {
        let mut s = "Can't invoke 'amazon.titan-text-premier-v1:0'. Reason: ".to_owned();
        s.append(self.reason.as_str());
        s
    }
}

/// Extracts the text of the reply's first content block, or says which
/// part of the reply's shape was missing.
pub fn get_converse_output_text(output: ConverseReply) -> (r: Result<String, BedrockConverseError>)
    ensures
        r matches Ok(t) ==> extraction_error(output) is None && t@ == extracted_text(output),
        r matches Err(e) ==> extraction_error(output) == Some(e.reason@),
{
    match output.output {
        None => Err(BedrockConverseError::from_reason("no output")),
        Some(ReplyOutput::Other) => Err(BedrockConverseError::from_reason("output not a message")),
        Some(ReplyOutput::Message(content)) => {
            if content.len() == 0 {
                Err(BedrockConverseError::from_reason("no content in message"))
            } else {
                match &content[0] {
                    ReplyContent::Text(t) => Ok(t.clone()),
                    ReplyContent::Other => Err(
                        BedrockConverseError::from_reason("content is not text"),
                    ),
                }
            }
        },
    }
}

/// The prompt handed to the model: the request's query parameter when
/// one was given, a fixed fallback text otherwise.
pub fn choose_prompt(param: Option<String>) -> (r: String)
    ensures
        param matches Some(p) ==> r@ == p@,
        param is None ==> r@ == "Response: Not prompt"@,
{
    match param {
        Some(p) => p,
        None => "Response: Not prompt".to_owned(),
    }
}

/// The response body for the request: the model's text on success, a
/// fixed error text otherwise — failures of the conversational path
/// collapse to it rather than surfacing structurally.
pub fn response_body(outcome: Result<String, BedrockConverseError>) -> (r: String)
    ensures
        outcome matches Ok(t) ==> r@ == t@,
        outcome is Err ==> r@ == "Error calling bedrock"@,
{
    match outcome {
        Ok(t) => t,
        Err(_) => "Error calling bedrock".to_owned(),
    }
}

} // verus!
