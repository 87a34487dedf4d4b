use batch_ingest::converse::{
    choose_prompt, get_converse_output_text, response_body, BedrockConverseError, ConverseReply,
    ConverseServiceError, ReplyContent, ReplyOutput,
};

#[test]
fn text_of_the_first_content_block_is_extracted() {
    let reply = ConverseReply {
        output: Some(ReplyOutput::Message(vec![
            ReplyContent::Text("hello".to_string()),
            ReplyContent::Other,
        ])),
    };
    assert_eq!(get_converse_output_text(reply).expect("text present"), "hello");
}

#[test]
fn each_malformed_reply_names_its_missing_part() {
    let no_output = ConverseReply { output: None };
    assert_eq!(get_converse_output_text(no_output).unwrap_err().reason, "no output");

    let not_a_message = ConverseReply { output: Some(ReplyOutput::Other) };
    assert_eq!(get_converse_output_text(not_a_message).unwrap_err().reason, "output not a message");

    let empty = ConverseReply { output: Some(ReplyOutput::Message(Vec::new())) };
    assert_eq!(get_converse_output_text(empty).unwrap_err().reason, "no content in message");

    let not_text = ConverseReply { output: Some(ReplyOutput::Message(vec![ReplyContent::Other])) };
    assert_eq!(get_converse_output_text(not_text).unwrap_err().reason, "content is not text");
}

#[test]
fn service_errors_map_to_fixed_reasons() {
    let timeout = BedrockConverseError::from_service_error(&ConverseServiceError::ModelTimeout);
    assert_eq!(timeout.reason, "Model took too long");
    let not_ready = BedrockConverseError::from_service_error(&ConverseServiceError::ModelNotReady);
    assert_eq!(not_ready.reason, "Model is not ready");
    let other = BedrockConverseError::from_service_error(&ConverseServiceError::Other);
    assert_eq!(other.reason, "Unknown");
}

#[test]
fn display_text_names_the_model_and_the_reason() {
    let e = BedrockConverseError::from_reason("Model took too long");
    assert_eq!(
        e.display_text(),
        "Can't invoke 'amazon.titan-text-premier-v1:0'. Reason: Model took too long"
    );
}

#[test]
fn prompt_falls_back_when_no_parameter_was_given() {
    assert_eq!(choose_prompt(Some("tell me a story".to_string())), "tell me a story");
    assert_eq!(choose_prompt(None), "Response: Not prompt");
}

#[test]
fn response_collapses_errors_to_a_fixed_text() {
    assert_eq!(response_body(Ok("fine".to_string())), "fine");
    assert_eq!(
        response_body(Err(BedrockConverseError::from_reason("Unknown"))),
        "Error calling bedrock"
    );
}
