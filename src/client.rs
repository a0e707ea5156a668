use vstd::prelude::*;

use crate::openai::{ChatCompletionsResponse, ImageGenerationResponse, OpenAIEndpoint, OpenAIRequest, OpenAIResponse};

verus! {

/// Why an exchange failed, where the client itself decides it.
#[derive(Debug, Clone, PartialEq, Eq)]
pub enum ClientError {
    /// No API credential is configured.
    MissingApiKey,
    /// The endpoint URL does not parse, or names no host.
    InvalidUrl,
    /// The server answered with a status other than 200.
    RequestFailed,
    /// The body is not the response object the endpoint kind calls for; the
    /// parser's message.
    Deserialize(String),
}

/// The port the client connects to.
pub const HTTPS_PORT: u16 = 443;

/// The one status that counts as success.
pub const STATUS_OK: u16 = 200;

/// A POST ready to go: where to connect, the target, the headers and the body.
#[derive(Debug, Clone, PartialEq, Eq)]
pub struct HttpPost {
    pub host: String,
    pub port: u16,
    pub uri: String,
    /// The value of the `Host` header.
    pub authority: String,
    /// The value of the `Content-Type` header.
    pub content_type: String,
    /// The value of the `Authorization` header.
    pub authorization: String,
    pub body: String,
}

/// The host that hyper's URI parser finds in a URL, if it parses and has one.
pub uninterp spec fn uri_host(url: Seq<char>) -> Option<Seq<char>>;

/// The authority that hyper's URI parser finds in a URL, if it parses and has one.
pub uninterp spec fn uri_authority(url: Seq<char>) -> Option<Seq<char>>;

/// Relies on `hyper::Uri`'s `FromStr` and `Uri::host`: the host of `url`, or
/// `None` where the parse fails or finds no authority.
#[verifier::external_body]
fn parse_host(url: &str) -> (r: Option<String>)
    ensures
        r is Some <==> uri_host(url@) is Some,
        r matches Some(h) ==> uri_host(url@) == Some(h@),
{
    match url.parse::<hyper::Uri>() {
        Ok(u) => u.host().map(|h| h.to_string()),
        Err(_) => None,
    }
}

/// Relies on `hyper::Uri`'s `FromStr` and `Uri::authority`: the authority of
/// `url`, or `None` where the parse fails or finds none.
#[verifier::external_body]
fn parse_authority(url: &str) -> (r: Option<String>)
    ensures
        r is Some <==> uri_authority(url@) is Some,
        r matches Some(a) ==> uri_authority(url@) == Some(a@),
{
    match url.parse::<hyper::Uri>() {
        Ok(u) => u.authority().map(|a| a.as_str().to_string()),
        Err(_) => None,
    }
}

/// The value of the `Authorization` header for an API key.
pub open spec fn bearer(key: Seq<char>) -> Seq<char> {
    "Bearer "@ + key
}

/// `p` is the POST of `body` to `url` with credential `key`.
pub open spec fn is_post_for(p: HttpPost, url: Seq<char>, key: Seq<char>, body: Seq<char>) -> bool {
    &&& uri_host(url) == Some(p.host@)
    &&& p.port == HTTPS_PORT
    &&& p.uri@ == url
    &&& uri_authority(url) == Some(p.authority@)
    &&& p.content_type@ == "application/json"@
    &&& p.authorization@ == bearer(key)
    &&& p.body@ == body
}

/// A response body decoded as one of the two response objects.
#[derive(Debug, Clone, PartialEq, Eq)]
pub enum ResponseBody {
    Chat(ChatCompletionsResponse),
    Image(ImageGenerationResponse),
}

/// The client, configured with the API credential it sends.
#[derive(Debug, Clone, PartialEq, Eq)]
pub struct OpenAI {
    pub api_key: Option<String>,
}

impl OpenAI {
    /// Frames the POST that carries `body`, the serialized payload of
    /// `request`. Without a credential it fails before anything else, so no
    /// connection is ever opened for such a client.
    pub fn prepare(&self, request: &OpenAIRequest, body: String) -> (r: Result<HttpPost, ClientError>)
        ensures
            self.api_key is None ==> r == Err::<HttpPost, ClientError>(ClientError::MissingApiKey),
            self.api_key matches Some(k) ==> {
                if uri_host(request.endpoint@) is Some && uri_authority(request.endpoint@) is Some {
                    r matches Ok(p) && is_post_for(p, request.endpoint@, k@, body@)
                } else {
                    r == Err::<HttpPost, ClientError>(ClientError::InvalidUrl)
                }
            },
    {
        let key = match &self.api_key {
            Some(k) => k,
            None => return Err(ClientError::MissingApiKey),
        };
        let host = match parse_host(request.endpoint.as_str()) {
            Some(h) => h,
            None => return Err(ClientError::InvalidUrl),
        };
        let authority = match parse_authority(request.endpoint.as_str()) {
            Some(a) => a,
            None => return Err(ClientError::InvalidUrl),
        };
        let mut authorization = "Bearer ".to_string();
        authorization.append(key.as_str());
        Ok(HttpPost {
            host,
            port: HTTPS_PORT,
            uri: request.endpoint.clone(),
            authority,
            content_type: "application/json".to_string(),
            authorization,
            body,
        })
    }

    /// Judges a status line: only 200 lets the exchange go on to the body,
    /// whatever that body holds.
    pub fn check_status(status: u16) -> (r: Result<(), ClientError>)
        ensures
            status == STATUS_OK ==> r is Ok,
            status != STATUS_OK ==> r == Err::<(), ClientError>(ClientError::RequestFailed),
    {
        if status == STATUS_OK {
            Ok(())
        } else {
            Err(ClientError::RequestFailed)
        }
    }

    /// Builds the response of an exchange with endpoint kind `kind` from the
    /// outcome of decoding its body. A failed decode is a deserialization
    /// error, never a partly filled response; so is a body of the other kind.
    pub fn finish(kind: OpenAIEndpoint, decoded: Result<ResponseBody, String>) -> (r: Result<OpenAIResponse, ClientError>)
        ensures
            decoded matches Err(e) ==> r == Err::<OpenAIResponse, ClientError>(ClientError::Deserialize(e)),
            decoded matches Ok(ResponseBody::Chat(c)) ==> if kind == OpenAIEndpoint::Chat {
                r == Ok::<OpenAIResponse, ClientError>(OpenAIResponse { chat: Some(c), image: None })
            } else {
                r matches Err(ClientError::Deserialize(_))
            },
            decoded matches Ok(ResponseBody::Image(i)) ==> if kind == OpenAIEndpoint::Images {
                r == Ok::<OpenAIResponse, ClientError>(OpenAIResponse { chat: None, image: Some(i) })
            } else {
                r matches Err(ClientError::Deserialize(_))
            },
    {
        match decoded {
            Err(e) => Err(ClientError::Deserialize(e)),
            Ok(ResponseBody::Chat(c)) => match kind {
                OpenAIEndpoint::Chat => Ok(OpenAIResponse { chat: Some(c), image: None }),
                OpenAIEndpoint::Images => Err(ClientError::Deserialize("expected an image generation response".to_string())),
            },
            Ok(ResponseBody::Image(i)) => match kind {
                OpenAIEndpoint::Images => Ok(OpenAIResponse { chat: None, image: Some(i) }),
                OpenAIEndpoint::Chat => Err(ClientError::Deserialize("expected a chat completion response".to_string())),
            },
        }
    }
}

} // verus!
