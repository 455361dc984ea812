//! The exchange with the chat-completion service: what is asked, where, and
//! how the answer is read. Sending the request is the caller's part.

use crate::config::{Config, ConfigError, ConfigErrorView, ConfigView};
use crate::text::{lemma_strip_trailing, owned, strip_trailing, trim_end_char};
use vstd::prelude::*;
use vstd::string::*;

verus! {

/// The path of the chat-completion resource below the service's address.
pub const CHAT_PATH: &'static str = "/v1/chat/completions";

/// Stands before the access token in the `Authorization` header.
pub const BEARER: &'static str = "Bearer ";

/// The rules that follow the configured instructions in the system message.
pub const SYSTEM_RULES: &'static str = "\n\nYou are an expert at writing clear and concise commit messages. \
    Follow these rules strictly:\n\n\
    1. Start with a type: feat, fix, docs, style, refactor, perf, test, build, ci, chore, or revert\n\
    2. Optionally add a scope in parentheses after the type\n\
    3. Write a brief description in imperative mood (e.g., 'add' not 'added')\n\
    4. Keep the first line under 72 characters\n\
    5. Use the body to explain what and why, not how\n\
    6. Reference issues and pull requests liberally\n\
    7. Consider starting the body with 'This commit' to make it clear what the commit does\n\n\
    Example format:\n\
    type(scope): subject\n\n\
    body\n\n\
    footer";

/// What stands before the diff in the user message.
pub const USER_INTRO: &'static str = "Here is the git diff of the staged changes. Generate a commit message that \
    follows the conventional commit format and best practices. Focus on what changed \
    and why, not how it changed:\n\n\
    ```diff\n";

/// What stands after the diff in the user message.
pub const USER_CLOSE: &'static str = "\n```";

/// The user message that a connection test sends.
pub const PING_CONTENT: &'static str = "Hello";

/// One message of a conversation.
#[derive(Debug, PartialEq, Eq)]
pub struct Message {
    pub role: String,
    pub content: String,
}

/// The body of a chat-completion request.
#[derive(Debug, PartialEq, Eq)]
pub struct ChatRequest {
    pub model: String,
    pub messages: Vec<Message>,
}

/// A request ready to be sent.
#[derive(Debug, PartialEq, Eq)]
pub struct ChatCall {
    /// The address to post to.
    pub endpoint: String,
    /// The value of the `Authorization` header.
    pub authorization: String,
    /// The body, to be sent as JSON.
    pub request: ChatRequest,
}

/// Why the service gave no commit message.
#[derive(Debug, PartialEq, Eq)]
pub enum LlmError {
    /// The service answered with a status outside 200..=299.
    RequestFailed { status: String, body: String },
    /// The answer's body was not a chat completion.
    Unreadable,
    /// The completion held no choice.
    NoChoice,
}

/// Mathematical model of [`Message`].
pub struct MessageView {
    pub role: Seq<char>,
    pub content: Seq<char>,
}

/// Mathematical model of [`ChatRequest`].
pub struct ChatRequestView {
    pub model: Seq<char>,
    pub messages: Seq<MessageView>,
}

/// Mathematical model of [`ChatCall`].
pub struct ChatCallView {
    pub endpoint: Seq<char>,
    pub authorization: Seq<char>,
    pub request: ChatRequestView,
}

/// Mathematical model of [`LlmError`].
pub enum LlmErrorView {
    RequestFailed { status: Seq<char>, body: Seq<char> },
    Unreadable,
    NoChoice,
}

impl View for Message {
    type V = MessageView;

    open spec fn view(&self) -> MessageView {
        MessageView { role: self.role@, content: self.content@ }
    }
}

impl View for ChatRequest {
    type V = ChatRequestView;

    open spec fn view(&self) -> ChatRequestView {
        ChatRequestView {
            model: self.model@,
            messages: self.messages@.map_values(|m: Message| m@),
        }
    }
}

impl View for ChatCall {
    type V = ChatCallView;

    open spec fn view(&self) -> ChatCallView {
        ChatCallView {
            endpoint: self.endpoint@,
            authorization: self.authorization@,
            request: self.request@,
        }
    }
}

impl View for LlmError {
    type V = LlmErrorView;

    open spec fn view(&self) -> LlmErrorView {
        match self {
            LlmError::RequestFailed { status, body } => LlmErrorView::RequestFailed {
                status: status@,
                body: body@,
            },
            LlmError::Unreadable => LlmErrorView::Unreadable,
            LlmError::NoChoice => LlmErrorView::NoChoice,
        }
    }
}

/// The address of the chat-completion resource of the service at `base`:
/// `base` without trailing slashes, then the resource's path.
pub open spec fn endpoint_of(base: Seq<char>) -> Seq<char> {
    strip_trailing(base, '/') + CHAT_PATH@
}

/// The system message: the configured instructions, then the fixed rules.
pub open spec fn system_message(system_prompt: Seq<char>) -> MessageView {
    MessageView { role: "system"@, content: system_prompt + SYSTEM_RULES@ }
}

/// The user message: the diff in a fenced block after a fixed introduction.
pub open spec fn user_message(diff: Seq<char>) -> MessageView {
    MessageView { role: "user"@, content: USER_INTRO@ + diff + USER_CLOSE@ }
}

/// The request for a commit message for `diff`.
pub open spec fn commit_request_of(
    diff: Seq<char>,
    system_prompt: Seq<char>,
    model: Seq<char>,
) -> ChatRequestView {
    ChatRequestView { model, messages: seq![system_message(system_prompt), user_message(diff)] }
}

/// The request of a connection test.
pub open spec fn ping_request_of(model: Seq<char>) -> ChatRequestView {
    ChatRequestView {
        model,
        messages: seq![MessageView { role: "user"@, content: PING_CONTENT@ }],
    }
}

/// The call that asks the configured service for a commit message for
/// `diff`. Without an access token there is none.
pub open spec fn commit_call_of(config: ConfigView, diff: Seq<char>) -> Result<
    ChatCallView,
    ConfigErrorView,
> {
    match config.api_token {
        Some(token) => Ok(
            ChatCallView {
                endpoint: endpoint_of(config.effective_api_base_url()),
                authorization: BEARER@ + token,
                request: commit_request_of(
                    diff,
                    config.effective_system_prompt(),
                    config.effective_model(),
                ),
            },
        ),
        None => Err(ConfigErrorView::TokenMissing),
    }
}

/// The call that tests the connection to the configured service. Without an
/// access token there is none.
pub open spec fn ping_call_of(config: ConfigView) -> Result<ChatCallView, ConfigErrorView> {
    match config.api_token {
        Some(token) => Ok(
            ChatCallView {
                endpoint: endpoint_of(config.effective_api_base_url()),
                authorization: BEARER@ + token,
                request: ping_request_of(config.effective_model()),
            },
        ),
        None => Err(ConfigErrorView::TokenMissing),
    }
}

/// The model of a call or of the reason why there is none.
pub open spec fn call_view(r: Result<ChatCall, ConfigError>) -> Result<ChatCallView, ConfigErrorView> {
    match r {
        Ok(call) => Ok(call@),
        Err(e) => Err(e@),
    }
}

/// Whether an HTTP status code reports success: 200 to 299.
pub open spec fn success(code: u16) -> bool {
    200 <= code < 300
}

/// How an answer is read. `choices` holds the message contents of the
/// completion's choices, or nothing where the body was no completion.
pub open spec fn answer_of(
    code: u16,
    status: Seq<char>,
    body: Seq<char>,
    choices: Option<Seq<Seq<char>>>,
) -> Result<Seq<char>, LlmErrorView> {
    if !success(code) {
        Err(LlmErrorView::RequestFailed { status, body })
    } else {
        match choices {
            None => Err(LlmErrorView::Unreadable),
            Some(contents) => if contents.len() == 0 {
                Err(LlmErrorView::NoChoice)
            } else {
                Ok(contents[0])
            },
        }
    }
}

/// The address ends in the resource's path with exactly one slash before
/// `v1`, however many slashes the configured address ends in.
pub proof fn lemma_endpoint_shape(base: Seq<char>)
    ensures
        endpoint_of(base) == strip_trailing(base, '/') + CHAT_PATH@,
        endpoint_of(base + seq!['/']) == endpoint_of(base),
        strip_trailing(base, '/').len() > 0 ==> strip_trailing(base, '/').last() != '/',
{
    lemma_strip_trailing(base, '/');
    assert((base + seq!['/']).drop_last() == base);
}

/// A commit message comes out of an answer exactly when the status reports
/// success and the completion holds a choice; it is then the first choice.
pub proof fn lemma_answer_is_first_choice(
    code: u16,
    status: Seq<char>,
    body: Seq<char>,
    choices: Option<Seq<Seq<char>>>,
)
    ensures
        answer_of(code, status, body, choices) is Ok <==> success(code) && choices is Some
            && choices->0.len() > 0,
        answer_of(code, status, body, choices) matches Ok(text) ==> text == choices->0[0],
{
}

impl LlmError {
    /// The failure in words.
    pub open spec fn spec_message(self) -> Seq<char> {
        match self {
            LlmError::RequestFailed { status, body } => "API request failed ("@ + status@ + "): "@
                + body@,
            LlmError::Unreadable => "Failed to parse API response"@,
            LlmError::NoChoice => "No response from API"@,
        }
    }

    /// The failure in words.
    pub fn message(&self) -> (r: String)
        ensures
            r@ == self.spec_message(),
    {
        match self {
            LlmError::RequestFailed { status, body } => {
                let mut text = owned("API request failed (");
                text.append(status.as_str());
                text.append("): ");
                text.append(body.as_str());
                text
            },
            LlmError::Unreadable => owned("Failed to parse API response"),
            LlmError::NoChoice => owned("No response from API"),
        }
    }
}

/// Whether an HTTP status code reports success.
pub fn is_success(code: u16) -> (r: bool)
    ensures
        r == success(code),
{
    200 <= code && code < 300
}

/// The address to post chat completions to, for the service at `base`.
pub fn endpoint(base: &str) -> (r: String)
    ensures
        r@ == endpoint_of(base@),
{
    let mut out = owned(trim_end_char(base, '/'));
    out.append(CHAT_PATH);
    out
}

/// The value of the `Authorization` header for `token`.
pub fn bearer(token: &str) -> (r: String)
    ensures
        r@ == BEARER@ + token@,
{
    let mut out = owned(BEARER);
    out.append(token);
    out
}

/// Builds a message.
fn message(role: &str, content: String) -> (r: Message)
    ensures
        r@ == (MessageView { role: role@, content: content@ }),
{
    Message { role: owned(role), content }
}

/// The request for a commit message for `diff`.
pub fn commit_request(diff: &str, system_prompt: &str, model: &str) -> (r: ChatRequest)
    ensures
        r@ == commit_request_of(diff@, system_prompt@, model@),
{
    let mut system = owned(system_prompt);
    system.append(SYSTEM_RULES);
    let mut user = owned(USER_INTRO);
    user.append(diff);
    user.append(USER_CLOSE);
    let mut messages: Vec<Message> = Vec::new();
    messages.push(message("system", system));
    messages.push(message("user", user));
    let request = ChatRequest { model: owned(model), messages };
    assert(request@.messages =~= commit_request_of(diff@, system_prompt@, model@).messages);
    request
}

/// The request of a connection test.
pub fn ping_request(model: &str) -> (r: ChatRequest)
    ensures
        r@ == ping_request_of(model@),
{
    let mut messages: Vec<Message> = Vec::new();
    messages.push(message("user", owned(PING_CONTENT)));
    let request = ChatRequest { model: owned(model), messages };
    assert(request@.messages =~= ping_request_of(model@).messages);
    request
}

impl ChatCall {
    /// The call that asks the configured service for a commit message for
    /// `diff`.
    pub fn for_commit(config: &Config, diff: &str) -> (r: Result<ChatCall, ConfigError>)
        ensures
            call_view(r) == commit_call_of(config@, diff@),
    {
        match config.get_api_token() {
            Ok(token) => Ok(
                ChatCall {
                    endpoint: endpoint(config.get_api_base_url()),
                    authorization: bearer(token.as_str()),
                    request: commit_request(diff, config.get_system_prompt(), config.get_model()),
                },
            ),
            Err(e) => Err(e),
        }
    }

    /// The call that tests the connection to the configured service.
    pub fn for_ping(config: &Config) -> (r: Result<ChatCall, ConfigError>)
        ensures
            call_view(r) == ping_call_of(config@),
    {
        match config.get_api_token() {
            Ok(token) => Ok(
                ChatCall {
                    endpoint: endpoint(config.get_api_base_url()),
                    authorization: bearer(token.as_str()),
                    request: ping_request(config.get_model()),
                },
            ),
            Err(e) => Err(e),
        }
    }
}

/// Reads the service's answer: the status decides first, then whether the
/// body could be read, then the first choice.
pub fn read_answer(code: u16, status: &str, body: &str, choices: Option<Vec<String>>) -> (r: Result<
    String,
    LlmError,
>)
    ensures
        match r {
            Ok(text) => answer_of(code, status@, body@, choices.deep_view()) == Ok::<
                Seq<char>,
                LlmErrorView,
            >(text@),
            Err(e) => answer_of(code, status@, body@, choices.deep_view()) == Err::<
                Seq<char>,
                LlmErrorView,
            >(e@),
        },
{
    if !is_success(code) {
        return Err(LlmError::RequestFailed { status: owned(status), body: owned(body) });
    }
    match choices {
        None => Err(LlmError::Unreadable),
        Some(mut contents) => {
            if contents.len() == 0 {
                Err(LlmError::NoChoice)
            } else {
                let first = contents.swap_remove(0);
                Ok(first)
            }
        },
    }
}

} // verus!
