//! What is sent to the model service, and what is read from its answers.
use vstd::prelude::*;
use vstd::string::StringExecFns;
use crate::error::PipelineError;

verus! {

/// The JSON string literal that `serde_json` writes for a text: the text between
/// double quotes, with the characters that JSON does not take as they are
/// written as escapes.
pub uninterp spec fn json_string(text: Seq<char>) -> Seq<char>;

/// Formats `serde_json::Value::String` compactly, through its `Display`. Nothing
/// is proved of it: the result is only given its name, [`json_string`].
#[verifier::external_body]
fn quote_json(text: &str) -> (quoted: String)
    ensures
        quoted@ == json_string(text@),
{
    serde_json::Value::String(text.to_string()).to_string()
}

/// The text found under `key` in a JSON document: `None` where the document
/// does not parse, where it has no such member, and where the member is no
/// string.
pub uninterp spec fn json_text_member(document: Seq<char>, key: Seq<char>) -> Option<Seq<char>>;

/// Parses `document` with `serde_json::from_str`, indexes the value by `key`, and
/// reads the member as a string with `serde_json::from_value`. Nothing is proved of
/// it: the result is only given its name, [`json_text_member`].
#[verifier::external_body]
fn text_member(document: &str, key: &str) -> (member: Option<String>)
    ensures
        member is Some <==> json_text_member(document@, key@) is Some,
        member is Some ==> member->Some_0@ == json_text_member(document@, key@)->Some_0,
{
    match serde_json::from_str::<serde_json::Value>(document) {
        Ok(value) => match serde_json::from_value::<String>(value[key].clone()) {
            Ok(text) => Some(text),
            Err(_) => None,
        },
        Err(_) => None,
    }
}

/// The body of a request to the model service, given the model's name and the
/// prompt as JSON string literals. Streaming is always switched off.
pub open spec fn request_text(model: Seq<char>, prompt: Seq<char>) -> Seq<char> {
    "{\"model\":"@ + model + ",\"prompt\":"@ + prompt + ",\"stream\":false}"@
}

/// Puts two JSON string literals into the body of a request.
pub fn frame_request(model: &str, prompt: &str) -> (body: String)
    ensures
        body@ == request_text(model@, prompt@),
{
    let mut body = String::from_str("{\"model\":");
    body.append(model);
    body.append(",\"prompt\":");
    body.append(prompt);
    body.append(",\"stream\":false}");
    body
}

/// The body of the request that asks the model `model_name` about `prompt`.
pub fn request_body(model_name: &str, prompt: &str) -> (body: String)
    ensures
        body@ == request_text(json_string(model_name@), json_string(prompt@)),
{
    let model = quote_json(model_name);
    let text = quote_json(prompt);
    frame_request(model.as_str(), text.as_str())
}

/// Reads the outcome of looking up the answer in a response of the model
/// service: a response without a text there is malformed.
pub fn member_or_malformed(member: Option<String>) -> (result: Result<String, PipelineError>)
    ensures
        match member {
            Some(text) => result == Ok::<String, PipelineError>(text),
            None => result == Err::<String, PipelineError>(PipelineError::MalformedResponse),
        },
{
    match member {
        Some(text) => Ok(text),
        None => Err(PipelineError::MalformedResponse),
    }
}

/// The text that the generation model produced, taken verbatim from the
/// `response` member of the service's answer.
pub fn generated_text(response_body: &str) -> (result: Result<String, PipelineError>)
    ensures
        match json_text_member(response_body@, "response"@) {
            Some(text) => result is Ok && result->Ok_0@ == text,
            None => result == Err::<String, PipelineError>(PipelineError::MalformedResponse),
        },
{
    member_or_malformed(text_member(response_body, "response"))
}

/// What came back from a call to the generation model: the body of its
/// answer, or nothing where the call itself failed.
pub fn read_generation(reply: Option<String>) -> (result: Result<String, PipelineError>)
    ensures
        match reply {
            None => result == Err::<String, PipelineError>(PipelineError::Transport),
            Some(body) => match json_text_member(body@, "response"@) {
                Some(text) => result is Ok && result->Ok_0@ == text,
                None => result == Err::<String, PipelineError>(PipelineError::MalformedResponse),
            },
        },
{
    match reply {
        None => Err(PipelineError::Transport),
        Some(body) => generated_text(body.as_str()),
    }
}

/// The instructions that open every prompt.
pub open spec fn prompt_head() -> Seq<char> {
    "You are an expert providing factually accurate answers.\n            Use only the information from the context to generate your answer.\n            If the context doesn't contain relevant information say I don't know as context doesn't have much info.\n            Context: "@
}

/// The prompt for a question, given the context retrieved for it.
pub open spec fn prompt_text(context: Seq<char>, question: Seq<char>) -> Seq<char> {
    prompt_head() + context + " Question: "@ + question
        + " Answer(only use the context for your answer)"@
}

/// Builds the prompt that tells the model to answer from the context alone, and
/// to say that it does not know where the context does not hold the answer.
pub fn build_prompt(context: &str, question: &str) -> (prompt: String)
    ensures
        prompt@ == prompt_text(context@, question@),
{
    let mut prompt = String::from_str(
        "You are an expert providing factually accurate answers.\n            Use only the information from the context to generate your answer.\n            If the context doesn't contain relevant information say I don't know as context doesn't have much info.\n            Context: ",
    );
    prompt.append(context);
    prompt.append(" Question: ");
    prompt.append(question);
    prompt.append(" Answer(only use the context for your answer)");
    prompt
}

} // verus!
