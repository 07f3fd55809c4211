//! The chat client: it owns the credential, describes the request for a
//! prompt, and reads what the transport brought back.
//!
//! The client performs no I/O. The caller sends the request it describes and
//! hands back the body, or the transport's failure.

use vstd::prelude::*;
use crate::decode::{decode_reply, reply_outcome};
use crate::error::{outcome_view, ApiClientError, ApiClientErrorView};
use crate::json::parsed_text;
use crate::request::{
    prompt_request, request_json, ChatRequest, HttpRequest, HttpRequestView, ENDPOINT,
};

verus! {

/// The environment variable that holds the credential.
pub const CREDENTIAL_VARIABLE: &'static str = "DEEPSEEK_API_KEY";

/// What the transport reports of one exchange, by its view: the complete
/// response body, or a description of its own failure.
pub open spec fn exchange_view(exchange: Result<String, String>) -> Result<Seq<char>, Seq<char>> {
    match exchange {
        Ok(body) => Ok(body@),
        Err(failure) => Err(failure@),
    }
}

/// What an exchange amounts to: a failed transport is a transport error that
/// carries the failure, and a body is whatever it decodes to.
pub open spec fn exchange_outcome(exchange: Result<Seq<char>, Seq<char>>) -> Result<
    Seq<char>,
    ApiClientErrorView,
> {
    match exchange {
        Ok(body) => reply_outcome(parsed_text(body)),
        Err(failure) => Err(ApiClientErrorView::Transport(failure)),
    }
}

/// Finishes an exchange from what the transport reported.
pub fn conclude(exchange: Result<String, String>) -> (r: Result<String, ApiClientError>)
    ensures
        outcome_view(r) == exchange_outcome(exchange_view(exchange)),
{
    match exchange {
        Ok(body) => decode_reply(body.as_str()),
        Err(failure) => Err(ApiClientError::Transport(failure)),
    }
}

/// A client for the chat-completion endpoint. It holds the credential, which
/// does not change while the client lives.
pub struct DeepSeekClient {
    api_key: String,
}

impl DeepSeekClient {
    /// The credential that the client was built with.
    pub closed spec fn credential(&self) -> Seq<char> {
        self.api_key@
    }

    /// The request that this client sends for `prompt`.
    pub open spec fn request_view(&self, prompt: Seq<char>) -> HttpRequestView {
        HttpRequestView {
            url: ENDPOINT@,
            authorization: "Bearer "@ + self.credential(),
            body: request_json(prompt_request(prompt)),
        }
    }

    /// Builds a client from the credential as the configuration gave it:
    /// `None` where it was not set. Without a credential there is no client.
    pub fn new(credential: Option<String>) -> (r: Result<DeepSeekClient, ApiClientError>)
        ensures
            match credential {
                Some(api_key) => r is Ok && r->Ok_0.credential() == api_key@,
                None => r == Err::<DeepSeekClient, ApiClientError>(ApiClientError::Configuration),
            },
    {
        match credential {
            Some(api_key) => Ok(DeepSeekClient { api_key }),
            None => Err(ApiClientError::Configuration),
        }
    }

    /// Describes the request for `prompt`: a `POST` to the endpoint, with the
    /// credential as a bearer token and the single-prompt payload as body.
    pub fn request(&self, prompt: &str) -> (r: HttpRequest)
        ensures
            r@ == self.request_view(prompt@),
    {
        let mut authorization = String::from_str("Bearer ");
        authorization.append(self.api_key.as_str());
        HttpRequest {
            url: String::from_str(ENDPOINT),
            authorization,
            body: ChatRequest::for_prompt(prompt).to_json(),
        }
    }

    /// One round trip: describes the request for `prompt`, lets `send` carry
    /// it out once, and reads what `send` reports. `send` returns the complete
    /// response body, or a description of the transport's failure.
    pub fn chat<F>(&self, prompt: &str, send: F) -> (r: Result<String, ApiClientError>) where
        F: FnOnce(HttpRequest) -> Result<String, String>,

        requires
            forall|request: HttpRequest|
                request@ == self.request_view(prompt@) ==> call_requires(send, (request,)),
        ensures
            exists|request: HttpRequest, exchange: Result<String, String>|
                request@ == self.request_view(prompt@) && #[trigger] call_ensures(
                    send,
                    (request,),
                    exchange,
                ) && outcome_view(r) == exchange_outcome(exchange_view(exchange)),
    {
        let request = self.request(prompt);
        let exchange = send(request);
        conclude(exchange)
    }
}

} // verus!
