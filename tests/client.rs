use twitter_generator::client::{ClientError, OpenAI, ResponseBody, HTTPS_PORT};
use twitter_generator::openai::{
    ChatCompletionsResponse, Choice, ImageGenerationResponse, Message, OpenAIEndpoint,
    OpenAIModels, OpenAIRequest, Url, Usage,
};

fn chat_request() -> OpenAIRequest {
    OpenAIRequest::new(OpenAIEndpoint::Chat).chat_req(OpenAIModels::GPT35Turbo, "hello", 100, 50)
}

fn sample_chat() -> ChatCompletionsResponse {
    ChatCompletionsResponse {
        id: Some("chatcmpl-1".to_string()),
        object: Some("chat.completion".to_string()),
        created: Some(1700000000),
        model: Some("gpt-3.5-turbo".to_string()),
        system_fingerprint: None,
        choices: Some(vec![Choice {
            index: 0,
            message: Message { role: "assistant".to_string(), content: "Hi.".to_string() },
            log_probs: None,
            finish_reason: "stop".to_string(),
        }]),
        usage: Some(Usage { prompt_tokens: 9, completion_tokens: 2, total_tokens: 11 }),
    }
}

fn sample_image() -> ImageGenerationResponse {
    ImageGenerationResponse { created: 5, data: vec![Url { url: "https://img/1.png".to_string() }] }
}

#[test]
fn missing_key_fails_before_connecting() {
    let api = OpenAI { api_key: None };
    let r = api.prepare(&chat_request(), "{}".to_string());
    assert_eq!(r, Err(ClientError::MissingApiKey));
}

#[test]
fn missing_key_wins_over_bad_url() {
    let api = OpenAI { api_key: None };
    let mut req = chat_request();
    req.endpoint = "::not a url::".to_string();
    assert_eq!(api.prepare(&req, String::new()), Err(ClientError::MissingApiKey));
}

#[test]
fn post_is_framed_for_the_chat_endpoint() {
    let api = OpenAI { api_key: Some("sk-test".to_string()) };
    let p = api.prepare(&chat_request(), "{\"model\":\"x\"}".to_string()).unwrap();
    assert_eq!(p.host, "api.openai.com");
    assert_eq!(p.port, 443);
    assert_eq!(p.port, HTTPS_PORT);
    assert_eq!(p.uri, "https://api.openai.com/v1/chat/completions");
    assert_eq!(p.authority, "api.openai.com");
    assert_eq!(p.content_type, "application/json");
    assert_eq!(p.authorization, "Bearer sk-test");
    assert_eq!(p.body, "{\"model\":\"x\"}");
}

#[test]
fn authority_keeps_an_explicit_port() {
    let api = OpenAI { api_key: Some("k".to_string()) };
    let mut req = chat_request();
    req.endpoint = "http://localhost:8080/v1/chat/completions".to_string();
    let p = api.prepare(&req, String::new()).unwrap();
    assert_eq!(p.host, "localhost");
    assert_eq!(p.authority, "localhost:8080");
    assert_eq!(p.port, 443);
}

#[test]
fn unparsable_url_is_invalid() {
    let api = OpenAI { api_key: Some("k".to_string()) };
    let mut req = chat_request();
    req.endpoint = "::not a url::".to_string();
    assert_eq!(api.prepare(&req, String::new()), Err(ClientError::InvalidUrl));
}

#[test]
fn url_without_host_is_invalid() {
    let api = OpenAI { api_key: Some("k".to_string()) };
    let mut req = chat_request();
    req.endpoint = "/v1/chat/completions".to_string();
    assert_eq!(api.prepare(&req, String::new()), Err(ClientError::InvalidUrl));
}

#[test]
fn status_ok_goes_on() {
    assert_eq!(OpenAI::check_status(200), Ok(()));
}

#[test]
fn any_other_status_is_request_failure() {
    for s in [0u16, 100, 201, 204, 301, 400, 401, 404, 429, 500, 503, u16::MAX] {
        assert_eq!(OpenAI::check_status(s), Err(ClientError::RequestFailed));
    }
}

#[test]
fn well_formed_chat_body_fills_chat_only() {
    let r = OpenAI::finish(OpenAIEndpoint::Chat, Ok(ResponseBody::Chat(sample_chat()))).unwrap();
    assert_eq!(r.chat, Some(sample_chat()));
    assert!(r.image.is_none());
}

#[test]
fn image_body_fills_image_only() {
    let r = OpenAI::finish(OpenAIEndpoint::Images, Ok(ResponseBody::Image(sample_image()))).unwrap();
    assert!(r.chat.is_none());
    assert_eq!(r.image, Some(sample_image()));
}

#[test]
fn malformed_json_is_a_deserialization_error() {
    let err = serde_json::from_str::<serde_json::Value>("{\"id\": ").unwrap_err().to_string();
    let r = OpenAI::finish(OpenAIEndpoint::Chat, Err(err.clone()));
    assert_eq!(r, Err(ClientError::Deserialize(err)));
}

#[test]
fn body_of_the_other_kind_is_a_deserialization_error() {
    let r = OpenAI::finish(OpenAIEndpoint::Chat, Ok(ResponseBody::Image(sample_image())));
    assert!(matches!(r, Err(ClientError::Deserialize(_))));
    let r = OpenAI::finish(OpenAIEndpoint::Images, Ok(ResponseBody::Chat(sample_chat())));
    assert!(matches!(r, Err(ClientError::Deserialize(_))));
}
