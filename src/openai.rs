use vstd::prelude::*;

verus! {

/// The API endpoints this client can address.
#[allow(non_snake_case)]
#[derive(Debug, Clone, Copy, PartialEq, Eq, Structural)]
pub enum OpenAIEndpoint {
    Chat,
    Images,
}

/// The fixed absolute URL of each endpoint.
pub open spec fn endpoint_url(e: OpenAIEndpoint) -> Seq<char> {
    match e {
        OpenAIEndpoint::Chat => "https://api.openai.com/v1/chat/completions"@,
        OpenAIEndpoint::Images => "https://api.openai.com/v1/images/generations"@,
    }
}

impl OpenAIEndpoint {
    pub fn url(&self) -> (r: &'static str)
        ensures
            r@ == endpoint_url(*self),
    {
        match self {
            OpenAIEndpoint::Chat => "https://api.openai.com/v1/chat/completions",
            OpenAIEndpoint::Images => "https://api.openai.com/v1/images/generations",
        }
    }
}

/// The models this client knows by name.
#[derive(Debug, Clone, Copy, PartialEq, Eq, Structural)]
pub enum OpenAIModels {
    GPT35Turbo,
    GPT35TurboInstruct,
    Dalle2,
}

/// The provider's identifier of each model.
pub open spec fn model_name(m: OpenAIModels) -> Seq<char> {
    match m {
        OpenAIModels::GPT35Turbo => "gpt-3.5-turbo"@,
        OpenAIModels::GPT35TurboInstruct => "gpt-3.5-turbo-instruct"@,
        OpenAIModels::Dalle2 => "dall-e-2"@,
    }
}

impl OpenAIModels {
    pub fn name(&self) -> (r: &'static str)
        ensures
            r@ == model_name(*self),
    {
        match self {
            OpenAIModels::GPT35Turbo => "gpt-3.5-turbo",
            OpenAIModels::GPT35TurboInstruct => "gpt-3.5-turbo-instruct",
            OpenAIModels::Dalle2 => "dall-e-2",
        }
    }
}

/// One role-tagged message of a conversation.
#[derive(Debug, Clone, PartialEq, Eq)]
pub struct Message {
    pub role: String,
    pub content: String,
}

impl View for Message {
    type V = (Seq<char>, Seq<char>);

    open spec fn view(&self) -> (Seq<char>, Seq<char>) {
        (self.role@, self.content@)
    }
}

/// The persona instruction that opens every chat payload.
pub const SYSTEM_MESSAGE: &'static str = "You are a content creator who is speacialized in making content which will generate a lot of engagement. You focus on making sure to take a side on the issue so that people can reply to your tweet with clear agreement or dissent.";

/// The body of a chat-completion request. The sampling temperature is held in
/// hundredths: `100` stands for `1.0`.
#[derive(Debug, Clone, PartialEq, Eq)]
pub struct ChatRequest {
    pub model: String,
    pub messages: Vec<Message>,
    pub temperature: u32,
    pub max_tokens: u32,
}

/// The messages of a chat payload as role/content pairs.
pub open spec fn messages_view(ms: Seq<Message>) -> Seq<(Seq<char>, Seq<char>)> {
    ms.map_values(|m: Message| m@)
}

/// The conversation every chat payload carries: the system instruction, then
/// the user's prompt.
pub open spec fn seeded_conversation(prompt: Seq<char>) -> Seq<(Seq<char>, Seq<char>)> {
    seq![("system"@, SYSTEM_MESSAGE@), ("user"@, prompt)]
}

/// `c` is the chat payload for these builder arguments.
pub open spec fn is_chat_payload(
    c: ChatRequest,
    model: OpenAIModels,
    prompt: Seq<char>,
    temperature: u32,
    max_tokens: u32,
) -> bool {
    &&& c.model@ == model_name(model)
    &&& messages_view(c.messages@) == seeded_conversation(prompt)
    &&& c.temperature == temperature
    &&& c.max_tokens == max_tokens
}

/// The body of an image-generation request. No builder fills it.
#[derive(Debug, Clone, PartialEq, Eq)]
pub struct ImageRequest {
    pub model: String,
    pub messages: Option<Vec<Message>>,
    pub temperature: Option<u32>,
    pub max_tokens: Option<u32>,
}

/// A request bound to one endpoint, with a payload slot for each endpoint kind.
#[derive(Debug)]
pub struct OpenAIRequest {
    pub endpoint: String,
    pub endpoint_enum: OpenAIEndpoint,
    pub chat_req: Option<ChatRequest>,
    pub image_req: Option<ImageRequest>,
}

impl OpenAIRequest {
    /// The URL matches the endpoint kind, and the only payload that may be
    /// filled is the one of that kind.
    pub open spec fn wf(&self) -> bool {
        &&& self.endpoint@ == endpoint_url(self.endpoint_enum)
        &&& match self.endpoint_enum {
            OpenAIEndpoint::Chat => self.image_req is None,
            OpenAIEndpoint::Images => self.chat_req is None,
        }
    }

    /// `r` is a fresh request for endpoint `e`: its URL, and no payload.
    pub open spec fn is_new(r: OpenAIRequest, e: OpenAIEndpoint) -> bool {
        &&& r.wf()
        &&& r.endpoint_enum == e
        &&& r.chat_req is None
        &&& r.image_req is None
    }

    /// `r` is `old` with its chat payload set for these arguments.
    pub open spec fn is_chat_configured(
        old: OpenAIRequest,
        r: OpenAIRequest,
        model: OpenAIModels,
        prompt: Seq<char>,
        temperature: u32,
        max_tokens: u32,
    ) -> bool {
        &&& r.wf()
        &&& r.endpoint == old.endpoint
        &&& r.endpoint_enum == old.endpoint_enum
        &&& r.image_req == old.image_req
        &&& r.chat_req matches Some(c) && is_chat_payload(c, model, prompt, temperature, max_tokens)
    }

    pub fn new(endpoint: OpenAIEndpoint) -> (r: Self)
        ensures
            Self::is_new(r, endpoint),
    {
        OpenAIRequest {
            endpoint: endpoint.url().to_string(),
            endpoint_enum: endpoint,
            chat_req: None,
            image_req: None,
        }
    }

    /// Fills the chat payload: the system instruction, then `message` as the
    /// user's prompt.
    pub fn chat_req(self, model: OpenAIModels, message: &str, temperature: u32, max_tokens: u32) -> (r: Self)
        requires
            self.wf(),
            self.endpoint_enum == OpenAIEndpoint::Chat,
        ensures
            Self::is_chat_configured(self, r, model, message@, temperature, max_tokens),
    {
        let system = Message { role: "system".to_string(), content: SYSTEM_MESSAGE.to_string() };
        let user = Message { role: "user".to_string(), content: message.to_string() };
        let messages = vec![system, user];
        let c = ChatRequest { model: model.name().to_string(), messages, temperature, max_tokens };
        assert(messages_view(c.messages@) =~= seeded_conversation(message@));
        OpenAIRequest { chat_req: Some(c), ..self }
    }
}

/// A chat request built by `new` for the chat endpoint and configured by
/// `chat_req` is bound to the chat endpoint and carries exactly two messages:
/// the system instruction first, the user's prompt second.
pub proof fn lemma_chat_builder_seeds_conversation(
    fresh: OpenAIRequest,
    built: OpenAIRequest,
    model: OpenAIModels,
    prompt: Seq<char>,
    temperature: u32,
    max_tokens: u32,
)
    requires
        OpenAIRequest::is_new(fresh, OpenAIEndpoint::Chat),
        OpenAIRequest::is_chat_configured(fresh, built, model, prompt, temperature, max_tokens),
    ensures
        built.endpoint_enum == OpenAIEndpoint::Chat,
        built.endpoint@ == endpoint_url(OpenAIEndpoint::Chat),
        built.image_req is None,
        built.chat_req matches Some(c) && {
            &&& c.messages@.len() == 2
            &&& c.messages@[0].role@ == "system"@
            &&& c.messages@[0].content@ == SYSTEM_MESSAGE@
            &&& c.messages@[1].role@ == "user"@
            &&& c.messages@[1].content@ == prompt
            &&& c.model@ == model_name(model)
            &&& c.temperature == temperature
            &&& c.max_tokens == max_tokens
        },
{
    let c = built.chat_req->Some_0;
    let conv = seeded_conversation(prompt);
    assert(conv.len() == 2);
    assert(messages_view(c.messages@).len() == c.messages@.len());
    assert(conv[0] == c.messages@[0]@);
    assert(conv[1] == c.messages@[1]@);
}

/// The parsed answer of an exchange: the slot of the request's endpoint kind
/// is filled, the other is empty.
#[derive(Debug, Clone, PartialEq, Eq)]
pub struct OpenAIResponse {
    pub chat: Option<ChatCompletionsResponse>,
    pub image: Option<ImageGenerationResponse>,
}

/// The answer of the image endpoint: a creation time and the image URLs.
#[derive(Debug, Clone, PartialEq, Eq)]
pub struct ImageGenerationResponse {
    pub created: u32,
    pub data: Vec<Url>,
}

/// One generated image's address.
#[derive(Debug, Clone, PartialEq, Eq)]
pub struct Url {
    pub url: String,
}

/// The answer of the chat endpoint. The API may omit any field.
#[derive(Debug, Clone, PartialEq, Eq)]
pub struct ChatCompletionsResponse {
    pub id: Option<String>,
    pub object: Option<String>,
    pub created: Option<u32>,
    pub model: Option<String>,
    pub system_fingerprint: Option<String>,
    pub choices: Option<Vec<Choice>>,
    pub usage: Option<Usage>,
}

/// One completion the model offers.
#[derive(Debug, Clone, PartialEq, Eq)]
pub struct Choice {
    pub index: u32,
    pub message: Message,
    pub log_probs: Option<String>,
    pub finish_reason: String,
}

/// Token counts of one exchange.
#[derive(Debug, Clone, Copy, PartialEq, Eq)]
pub struct Usage {
    pub prompt_tokens: u32,
    pub completion_tokens: u32,
    pub total_tokens: u32,
}

} // verus!
