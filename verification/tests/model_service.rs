use documind::error::PipelineError;
use documind::model::{build_prompt, frame_request, generated_text, member_or_malformed, request_body};

#[test]
fn request_body_names_model_and_prompt() {
    assert_eq!(
        request_body("llama3", "What is X?"),
        "{\"model\":\"llama3\",\"prompt\":\"What is X?\",\"stream\":false}"
    );
}

#[test]
fn request_body_escapes_what_json_does_not_take() {
    assert_eq!(
        request_body("m", "say \"hi\"\nback\\"),
        "{\"model\":\"m\",\"prompt\":\"say \\\"hi\\\"\\nback\\\\\",\"stream\":false}"
    );
}

#[test]
fn request_body_reads_back_as_json() {
    let body = request_body("nomic-embed-text", "tab\there, quote \" and é");
    let value: serde_json::Value = serde_json::from_str(&body).unwrap();
    assert_eq!(value["model"].as_str(), Some("nomic-embed-text"));
    assert_eq!(value["prompt"].as_str(), Some("tab\there, quote \" and é"));
    assert_eq!(value["stream"].as_bool(), Some(false));
    assert_eq!(value.as_object().unwrap().len(), 3);
}

#[test]
fn framing_puts_the_literals_in_place() {
    assert_eq!(frame_request("A", "B"), "{\"model\":A,\"prompt\":B,\"stream\":false}");
}

#[test]
fn generated_text_is_returned_verbatim() {
    assert_eq!(
        generated_text("{\"model\":\"llama3\",\"response\":\"I don't know.\",\"done\":true}"),
        Ok("I don't know.".to_string())
    );
    assert_eq!(generated_text("{\"response\":\"line\\nbreak \\u00e9\"}"), Ok("line\nbreak é".to_string()));
    assert_eq!(generated_text("{\"response\":\"\"}"), Ok(String::new()));
}

#[test]
fn response_of_another_shape_is_malformed() {
    assert_eq!(generated_text("{\"answer\":\"x\"}"), Err(PipelineError::MalformedResponse));
    assert_eq!(generated_text("{\"response\":42}"), Err(PipelineError::MalformedResponse));
    assert_eq!(generated_text("{\"response\":null}"), Err(PipelineError::MalformedResponse));
    assert_eq!(generated_text("[\"response\"]"), Err(PipelineError::MalformedResponse));
    assert_eq!(generated_text("not json"), Err(PipelineError::MalformedResponse));
    assert_eq!(generated_text(""), Err(PipelineError::MalformedResponse));
}

#[test]
fn missing_member_is_malformed() {
    assert_eq!(member_or_malformed(Some("x".to_string())), Ok("x".to_string()));
    assert_eq!(member_or_malformed(None), Err(PipelineError::MalformedResponse));
}

#[test]
fn prompt_follows_the_template() {
    let expected = "You are an expert providing factually accurate answers.\n            Use only the information from the context to generate your answer.\n            If the context doesn't contain relevant information say I don't know as context doesn't have much info.\n            Context: alpha,beta Question: What is X? Answer(only use the context for your answer)";
    assert_eq!(build_prompt("alpha,beta", "What is X?"), expected);
}

#[test]
fn prompt_with_empty_context_still_tells_to_admit_ignorance() {
    let prompt = build_prompt("", "What is X?");
    assert!(prompt.contains("say I don't know"));
    assert!(prompt.contains("Context:  Question: What is X? Answer(only use the context for your answer)"));
}
