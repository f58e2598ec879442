//! The provider gateway: one normalized completion contract in front of
//! three incompatible chat-completion wire protocols.
//!
//! The gateway is split around its single outbound HTTPS call. Everything
//! before the call is `prepare_completion`, which validates the credential,
//! dispatches on the provider and builds the exact request to send;
//! everything after it is `interpret_completion_response`, which turns the
//! HTTP status and raw body into the normalized result. The caller performs
//! the call itself between the two.

use vstd::prelude::*;
use vstd::string::StrSliceExecFns;
use vstd::string::StringExecFns;

use crate::json::JsonNode;
use crate::json::append_json_escaped;
use crate::json::as_text;
use crate::json::get_field;
use crate::json::get_index;
use crate::json::is_array_node;
use crate::json::parse_json;
use crate::json::spec_as_text;
use crate::json::spec_get_field;
use crate::json::spec_get_index;
use crate::json::spec_json_escape;
use crate::json::spec_parse_json;
use crate::text::first_line;
use crate::text::is_blank;
use crate::text::spec_dec;
use crate::text::spec_first_line;
use crate::text::spec_is_blank;
use crate::text::str_eq;
use crate::text::u64_to_decimal;

verus! {

/// The three supported completion backends.
#[derive(Clone, Copy, PartialEq, Eq, Structural, Debug)]
pub enum Provider {
    OpenAICompatible,
    Anthropic,
    GoogleProxy,
}

/// The provider named by a caller-supplied string, if it is one of the
/// three supported names.
pub open spec fn spec_parse_provider(s: Seq<char>) -> Option<Provider> {
    if s == "openai"@ {
        Some(Provider::OpenAICompatible)
    } else if s == "anthropic"@ {
        Some(Provider::Anthropic)
    } else if s == "google"@ {
        Some(Provider::GoogleProxy)
    } else {
        None
    }
}

/// Parses a provider name as the dispatch switch understands it.
pub fn parse_provider(s: &str) -> (r: Option<Provider>)
    ensures
        r == spec_parse_provider(s@),
{
    if str_eq(s, "openai") {
        Some(Provider::OpenAICompatible)
    } else if str_eq(s, "anthropic") {
        Some(Provider::Anthropic)
    } else if str_eq(s, "google") {
        Some(Provider::GoogleProxy)
    } else {
        None
    }
}

/// One chat turn of a provider payload.
pub struct ChatMessage {
    pub role: String,
    pub content: String,
}

/// The request payload of the OpenAI-compatible protocol, also spoken by
/// the Google proxy endpoint.
pub struct OpenAIRequest {
    pub model: String,
    pub messages: Vec<ChatMessage>,
}

/// One answer choice of an OpenAI-compatible response.
pub struct OpenAIChoice {
    pub message: ChatMessage,
}

/// The success envelope of the OpenAI-compatible protocol.
pub struct OpenAIResponse {
    pub choices: Vec<OpenAIChoice>,
}

/// The request payload of the Anthropic messages protocol: the system
/// prompt rides in a dedicated field, not as a message.
pub struct AnthropicRequest {
    pub model: String,
    pub max_tokens: u32,
    pub messages: Vec<ChatMessage>,
    pub system: Option<String>,
}

/// One content block of an Anthropic response.
pub struct AnthropicContent {
    pub text: String,
}

/// The success envelope of the Anthropic messages protocol.
pub struct AnthropicResponse {
    pub content: Vec<AnthropicContent>,
}

/// A gateway failure, each variant carrying the message shown to the user.
#[derive(Debug)]
pub enum GatewayError {
    /// The credential was missing or blank; nothing was sent.
    Configuration(String),
    /// The provider string names no supported backend; nothing was sent.
    UnsupportedProvider(String),
    /// The endpoint could not be reached.
    Transport(String),
    /// The endpoint answered with a non-success status, normalized.
    Upstream(String),
    /// The endpoint answered success but the body had no extractable text.
    ResponseParse(String),
}

/// The display text an error carries.
pub open spec fn spec_gateway_message(e: GatewayError) -> Seq<char> {
    match e {
        GatewayError::Configuration(m) => m@,
        GatewayError::UnsupportedProvider(m) => m@,
        GatewayError::Transport(m) => m@,
        GatewayError::Upstream(m) => m@,
        GatewayError::ResponseParse(m) => m@,
    }
}

impl GatewayError {
    /// The human-readable message, whichever variant this is.
    pub fn message(&self) -> (r: &String)
        ensures
            r@ == spec_gateway_message(*self),
    {
        match self {
            GatewayError::Configuration(m) => m,
            GatewayError::UnsupportedProvider(m) => m,
            GatewayError::Transport(m) => m,
            GatewayError::Upstream(m) => m,
            GatewayError::ResponseParse(m) => m,
        }
    }
}

/// The fixed system instruction prepended to every completion.
pub open spec fn spec_system_prompt() -> Seq<char> {
    "You are a LaTeX expert assistant. Return only valid LaTeX code or helpful advice as requested."@
}

fn system_prompt() -> (r: &'static str)
    ensures
        r@ == spec_system_prompt(),
{
    "You are a LaTeX expert assistant. Return only valid LaTeX code or helpful advice as requested."
}

/// The JSON object serializing one chat message, fields in declaration
/// order.
pub open spec fn spec_message_json(role: Seq<char>, content: Seq<char>) -> Seq<char> {
    "{\"role\":\""@ + spec_json_escape(role) + "\",\"content\":\""@ + spec_json_escape(content)
        + "\"}"@
}

/// The (role, content) views of a message list.
pub open spec fn spec_message_views(msgs: Seq<ChatMessage>) -> Seq<(Seq<char>, Seq<char>)> {
    msgs.map_values(|m: ChatMessage| (m.role@, m.content@))
}

/// The comma-separated serialization of the messages from index `i` on.
pub open spec fn spec_messages_join(msgs: Seq<(Seq<char>, Seq<char>)>, i: int) -> Seq<char>
    decreases msgs.len() - i,
{
    if i < 0 || i >= msgs.len() {
        Seq::empty()
    } else if i == msgs.len() - 1 {
        spec_message_json(msgs[i].0, msgs[i].1)
    } else {
        spec_message_json(msgs[i].0, msgs[i].1) + ","@ + spec_messages_join(msgs, i + 1)
    }
}

/// The JSON serialization of an OpenAI-compatible request.
pub open spec fn spec_openai_request_json(
    model: Seq<char>,
    msgs: Seq<(Seq<char>, Seq<char>)>,
) -> Seq<char> {
    "{\"model\":\""@ + spec_json_escape(model) + "\",\"messages\":["@ + spec_messages_join(msgs, 0)
        + "]}"@
}

/// The JSON serialization of an Anthropic request, fields in declaration
/// order; an absent system prompt serializes as `null`.
pub open spec fn spec_anthropic_request_json(
    model: Seq<char>,
    max_tokens: int,
    msgs: Seq<(Seq<char>, Seq<char>)>,
    system: Option<Seq<char>>,
) -> Seq<char> {
    "{\"model\":\""@ + spec_json_escape(model) + "\",\"max_tokens\":"@ + spec_dec(max_tokens)
        + ",\"messages\":["@ + spec_messages_join(msgs, 0) + "]"@ + (match system {
        Some(s) => ",\"system\":\""@ + spec_json_escape(s) + "\""@,
        None => ",\"system\":null"@,
    }) + "}"@
}

fn append_message_json(out: &mut String, m: &ChatMessage)
    ensures
        final(out)@ == old(out)@ + spec_message_json(m.role@, m.content@),
{
    out.append("{\"role\":\"");
    append_json_escaped(out, m.role.as_str());
    out.append("\",\"content\":\"");
    append_json_escaped(out, m.content.as_str());
    out.append("\"}");
    assert(out@ =~= old(out)@ + spec_message_json(m.role@, m.content@));
}

fn append_messages_json(out: &mut String, msgs: &Vec<ChatMessage>)
    ensures
        final(out)@ == old(out)@ + spec_messages_join(spec_message_views(msgs@), 0),
{
    let ghost views = spec_message_views(msgs@);
    let n = msgs.len();
    let mut i: usize = 0;
    while i < n
        invariant
            0 <= i <= n,
            n == msgs@.len(),
            views == spec_message_views(msgs@),
            out@ + spec_messages_join(views, i as int) == old(out)@ + spec_messages_join(views, 0),
        decreases n - i,
    {
        let ghost prev = out@;
        append_message_json(out, &msgs[i]);
        if i + 1 < n {
            out.append(",");
        }
        proof {
            assert(views[i as int] == (msgs@[i as int].role@, msgs@[i as int].content@));
            assert(out@ + spec_messages_join(views, i + 1) =~= prev + spec_messages_join(
                views,
                i as int,
            ));
        }
        i += 1;
    }
    assert(out@ =~= out@ + spec_messages_join(views, n as int));
}

/// Serializes an OpenAI-compatible request as its JSON payload.
pub fn openai_request_json(req: &OpenAIRequest) -> (r: String)
    ensures
        r@ == spec_openai_request_json(req.model@, spec_message_views(req.messages@)),
{
    let mut out = String::from_str("{\"model\":\"");
    append_json_escaped(&mut out, req.model.as_str());
    out.append("\",\"messages\":[");
    append_messages_json(&mut out, &req.messages);
    out.append("]}");
    assert(out@ =~= spec_openai_request_json(req.model@, spec_message_views(req.messages@)));
    out
}

/// Serializes an Anthropic request as its JSON payload.
pub fn anthropic_request_json(req: &AnthropicRequest) -> (r: String)
    ensures
        r@ == spec_anthropic_request_json(
            req.model@,
            req.max_tokens as int,
            spec_message_views(req.messages@),
            match req.system {
                Some(s) => Some(s@),
                None => None,
            },
        ),
{
    let mut out = String::from_str("{\"model\":\"");
    append_json_escaped(&mut out, req.model.as_str());
    out.append("\",\"max_tokens\":");
    let dec = u64_to_decimal(req.max_tokens as u64);
    out.append(dec.as_str());
    out.append(",\"messages\":[");
    append_messages_json(&mut out, &req.messages);
    out.append("]");
    match &req.system {
        Some(s) => {
            out.append(",\"system\":\"");
            append_json_escaped(&mut out, s.as_str());
            out.append("\"");
        },
        None => {
            out.append(",\"system\":null");
        },
    }
    out.append("}");
    assert(out@ =~= spec_anthropic_request_json(
        req.model@,
        req.max_tokens as int,
        spec_message_views(req.messages@),
        match req.system {
            Some(s) => Some(s@),
            None => None,
        },
    ));
    out
}

/// Everything the caller needs to perform the one outbound HTTPS call: the
/// endpoint, the headers to set, and the payload to post.
pub struct RequestPlan {
    pub url: String,
    pub headers: Vec<(String, String)>,
    pub body: String,
}

/// The body sent to the OpenAI-compatible and Google proxy endpoints: the
/// system instruction leads, the user prompt follows.
pub open spec fn spec_openai_chat_body(model: Seq<char>, prompt: Seq<char>) -> Seq<char> {
    spec_openai_request_json(
        model,
        seq![("system"@, spec_system_prompt()), ("user"@, prompt)],
    )
}

/// The body sent to the Anthropic endpoint: only the user turn as a
/// message, the system instruction in its dedicated field, 4096 max tokens.
pub open spec fn spec_anthropic_chat_body(model: Seq<char>, prompt: Seq<char>) -> Seq<char> {
    spec_anthropic_request_json(
        model,
        4096,
        seq![("user"@, prompt)],
        Some(spec_system_prompt()),
    )
}

/// The message of the configuration error for a blank credential.
pub open spec fn spec_config_error_message(provider: Seq<char>) -> Seq<char> {
    "API Key for "@ + provider + " is not set. Please go to Settings to configure it."@
}

/// The message of the unsupported-provider error.
pub open spec fn spec_unsupported_message(provider: Seq<char>) -> Seq<char> {
    "Unsupported AI provider: "@ + provider
}

/// What a correct request plan holds for each provider: endpoint,
/// authentication and payload exactly as that protocol asks.
pub open spec fn spec_plan_ok(
    p: Provider,
    prompt: Seq<char>,
    model: Seq<char>,
    key: Seq<char>,
    plan: RequestPlan,
) -> bool {
    match p {
        Provider::OpenAICompatible => {
            &&& plan.url@ == "https://api.openai.com/v1/chat/completions"@
            &&& plan.headers@.len() == 2
            &&& plan.headers@[0].0@ == "Authorization"@
            &&& plan.headers@[0].1@ == "Bearer "@ + key
            &&& plan.headers@[1].0@ == "Content-Type"@
            &&& plan.headers@[1].1@ == "application/json"@
            &&& plan.body@ == spec_openai_chat_body(model, prompt)
        },
        Provider::GoogleProxy => {
            &&& plan.url@ == "https://generativelanguage.googleapis.com/v1beta/openai/chat/completions?key="@
                + key
            &&& plan.headers@.len() == 2
            &&& plan.headers@[0].0@ == "Authorization"@
            &&& plan.headers@[0].1@ == "Bearer "@ + key
            &&& plan.headers@[1].0@ == "Content-Type"@
            &&& plan.headers@[1].1@ == "application/json"@
            &&& plan.body@ == spec_openai_chat_body(model, prompt)
        },
        Provider::Anthropic => {
            &&& plan.url@ == "https://api.anthropic.com/v1/messages"@
            &&& plan.headers@.len() == 3
            &&& plan.headers@[0].0@ == "x-api-key"@
            &&& plan.headers@[0].1@ == key
            &&& plan.headers@[1].0@ == "anthropic-version"@
            &&& plan.headers@[1].1@ == "2023-06-01"@
            &&& plan.headers@[2].0@ == "Content-Type"@
            &&& plan.headers@[2].1@ == "application/json"@
            &&& plan.body@ == spec_anthropic_chat_body(model, prompt)
        },
    }
}

fn two_part_message(head: &str, middle: &str, tail: &str) -> (r: String)
    ensures
        r@ == head@ + middle@ + tail@,
{
    let mut m = String::from_str(head);
    m.append(middle);
    m.append(tail);
    assert(m@ =~= head@ + middle@ + tail@);
    m
}

/// Validates a completion request and builds the one HTTP request that
/// serves it. A blank credential or an unknown provider fails here, before
/// anything could be sent; otherwise the returned plan is exactly the
/// request the named provider's protocol asks for.
pub fn prepare_completion(prompt: &str, model: &str, provider: &str, api_key: &str) -> (r: Result<
    RequestPlan,
    GatewayError,
>)
    ensures
        spec_is_blank(api_key@) ==> (r matches Err(GatewayError::Configuration(m))
            && m@ == spec_config_error_message(provider@)),
        !spec_is_blank(api_key@) ==> (match spec_parse_provider(provider@) {
            None => r matches Err(GatewayError::UnsupportedProvider(m)) && m@
                == spec_unsupported_message(provider@),
            Some(p) => r matches Ok(plan) && spec_plan_ok(p, prompt@, model@, api_key@, plan),
        }),
{
    if is_blank(api_key) {
        return Err(
            GatewayError::Configuration(
                two_part_message(
                    "API Key for ",
                    provider,
                    " is not set. Please go to Settings to configure it.",
                ),
            ),
        );
    }
    match parse_provider(provider) {
        None => {
            let mut m = String::from_str("Unsupported AI provider: ");
            m.append(provider);
            Err(GatewayError::UnsupportedProvider(m))
        },
        Some(Provider::OpenAICompatible) => {
            let req = OpenAIRequest {
                model: String::from_str(model),
                messages: openai_style_messages(prompt),
            };
            let body = openai_request_json(&req);
            Ok(
                RequestPlan {
                    url: String::from_str("https://api.openai.com/v1/chat/completions"),
                    headers: bearer_headers(api_key),
                    body,
                },
            )
        },
        Some(Provider::GoogleProxy) => {
            let req = OpenAIRequest {
                model: String::from_str(model),
                messages: openai_style_messages(prompt),
            };
            let body = openai_request_json(&req);
            let mut url = String::from_str(
                "https://generativelanguage.googleapis.com/v1beta/openai/chat/completions?key=",
            );
            url.append(api_key);
            Ok(RequestPlan { url, headers: bearer_headers(api_key), body })
        },
        Some(Provider::Anthropic) => {
            let req = AnthropicRequest {
                model: String::from_str(model),
                max_tokens: 4096,
                messages: anthropic_messages(prompt),
                system: Some(String::from_str(system_prompt())),
            };
            let body = anthropic_request_json(&req);
            let mut headers: Vec<(String, String)> = Vec::new();
            headers.push((String::from_str("x-api-key"), String::from_str(api_key)));
            headers.push(
                (String::from_str("anthropic-version"), String::from_str("2023-06-01")),
            );
            headers.push(
                (String::from_str("Content-Type"), String::from_str("application/json")),
            );
            Ok(
                RequestPlan {
                    url: String::from_str("https://api.anthropic.com/v1/messages"),
                    headers,
                    body,
                },
            )
        },
    }
}

fn openai_style_messages(prompt: &str) -> (r: Vec<ChatMessage>)
    ensures
        spec_message_views(r@) =~= seq![
            ("system"@, spec_system_prompt()),
            ("user"@, prompt@),
        ],
{
    let mut msgs: Vec<ChatMessage> = Vec::new();
    msgs.push(
        ChatMessage {
            role: String::from_str("system"),
            content: String::from_str(system_prompt()),
        },
    );
    msgs.push(ChatMessage { role: String::from_str("user"), content: String::from_str(prompt) });
    assert(spec_message_views(msgs@) =~= seq![
        ("system"@, spec_system_prompt()),
        ("user"@, prompt@),
    ]);
    msgs
}

fn anthropic_messages(prompt: &str) -> (r: Vec<ChatMessage>)
    ensures
        spec_message_views(r@) =~= seq![("user"@, prompt@)],
{
    let mut msgs: Vec<ChatMessage> = Vec::new();
    msgs.push(ChatMessage { role: String::from_str("user"), content: String::from_str(prompt) });
    assert(spec_message_views(msgs@) =~= seq![("user"@, prompt@)]);
    msgs
}

/// The provider name in a normalized upstream-error title; the Google
/// proxy reports as the model family it fronts.
pub open spec fn spec_error_title(p: Provider) -> Seq<char> {
    match p {
        Provider::OpenAICompatible => "OpenAI"@,
        Provider::Anthropic => "Anthropic"@,
        Provider::GoogleProxy => "Gemini"@,
    }
}

/// The upper-case provider tag of the generic fallback message.
pub open spec fn spec_upper_tag(p: Provider) -> Seq<char> {
    match p {
        Provider::OpenAICompatible => "OPENAI"@,
        Provider::Anthropic => "ANTHROPIC"@,
        Provider::GoogleProxy => "GOOGLE"@,
    }
}

/// The provider name in a parse-failure message.
pub open spec fn spec_parse_label(p: Provider) -> Seq<char> {
    match p {
        Provider::OpenAICompatible => "OpenAI"@,
        Provider::Anthropic => "Anthropic"@,
        Provider::GoogleProxy => "Google"@,
    }
}

/// Where an error body keeps its `error` object: at the top level, except
/// that the Google proxy may wrap it as the first element of an array.
pub open spec fn spec_error_node(p: Provider, parsed: Option<JsonNode>) -> Option<JsonNode> {
    match parsed {
        Some(tree) => if p is GoogleProxy && tree matches JsonNode::Array(_) {
            match spec_get_index(tree, 0) {
                Some(head) => spec_get_field(head, "error"@),
                None => None,
            }
        } else {
            spec_get_field(tree, "error"@)
        },
        None => None,
    }
}

/// The structured `error.message` string of an error body, if it has one.
pub open spec fn spec_error_text(p: Provider, parsed: Option<JsonNode>) -> Option<Seq<char>> {
    match spec_error_node(p, parsed) {
        Some(e) => match spec_get_field(e, "message"@) {
            Some(m) => spec_as_text(m),
            None => None,
        },
        None => None,
    }
}

/// The fallback message when no structured error message can be found: the
/// raw body behind an upper-case provider tag.
pub open spec fn spec_generic_error(p: Provider, status: u16, body: Seq<char>) -> Seq<char> {
    spec_upper_tag(p) + " API Error ("@ + spec_dec(status as int) + "): "@ + body
}

/// The normalized message for a non-success response: provider-aware when
/// the body carries a structured `error.message`, and for a rate-limited
/// Google proxy a distinguished quota message built from the first line of
/// that text; the generic form otherwise.
pub open spec fn spec_error_message(p: Provider, status: u16, body: Seq<char>) -> Seq<char> {
    match spec_error_text(p, spec_parse_json(body)) {
        Some(msg) => if p is GoogleProxy && status == 429 {
            "Gemini Quota Exceeded: "@ + spec_first_line(msg)
                + ". Please wait a few seconds and try again."@
        } else {
            spec_error_title(p) + " Error ("@ + spec_dec(status as int) + "): "@ + msg
        },
        None => spec_generic_error(p, status, body),
    }
}

fn error_title(p: Provider) -> (r: &'static str)
    ensures
        r@ == spec_error_title(p),
{
    match p {
        Provider::OpenAICompatible => "OpenAI",
        Provider::Anthropic => "Anthropic",
        Provider::GoogleProxy => "Gemini",
    }
}

fn upper_tag(p: Provider) -> (r: &'static str)
    ensures
        r@ == spec_upper_tag(p),
{
    match p {
        Provider::OpenAICompatible => "OPENAI",
        Provider::Anthropic => "ANTHROPIC",
        Provider::GoogleProxy => "GOOGLE",
    }
}

fn parse_label(p: Provider) -> (r: &'static str)
    ensures
        r@ == spec_parse_label(p),
{
    match p {
        Provider::OpenAICompatible => "OpenAI",
        Provider::Anthropic => "Anthropic",
        Provider::GoogleProxy => "Google",
    }
}

/// Normalizes a non-success response body into the single human-readable
/// message that callers receive, per the provider-aware algorithm.
pub fn parse_error_response(provider: Provider, status: u16, body: &str) -> (r: String)
    ensures
        r@ == spec_error_message(provider, status, body@),
{
    let parsed = parse_json(body);
    let mut found: Option<&String> = None;
    match &parsed {
        Some(tree) => {
            let err_node: Option<&JsonNode> = if provider == Provider::GoogleProxy
                && is_array_node(tree) {
                match get_index(tree, 0) {
                    Some(head) => get_field(head, "error"),
                    None => None,
                }
            } else {
                get_field(tree, "error")
            };
            match err_node {
                Some(e) => {
                    match get_field(e, "message") {
                        Some(m) => {
                            found = as_text(m);
                        },
                        None => {},
                    }
                },
                None => {},
            }
        },
        None => {},
    }
    proof {
        match found {
            Some(s) => assert(spec_error_text(provider, spec_parse_json(body@)) == Some(s@)),
            None => assert(spec_error_text(provider, spec_parse_json(body@)) is None),
        }
    }
    match found {
        Some(s) => {
            if provider == Provider::GoogleProxy && status == 429 {
                let mut m = String::from_str("Gemini Quota Exceeded: ");
                let head = first_line(s.as_str());
                m.append(head.as_str());
                m.append(". Please wait a few seconds and try again.");
                assert(m@ =~= spec_error_message(provider, status, body@));
                m
            } else {
                let mut m = String::from_str(error_title(provider));
                m.append(" Error (");
                let dec = u64_to_decimal(status as u64);
                m.append(dec.as_str());
                m.append("): ");
                m.append(s.as_str());
                assert(m@ =~= spec_error_message(provider, status, body@));
                m
            }
        },
        None => {
            let mut m = String::from_str(upper_tag(provider));
            m.append(" API Error (");
            let dec = u64_to_decimal(status as u64);
            m.append(dec.as_str());
            m.append("): ");
            m.append(body);
            assert(m@ =~= spec_error_message(provider, status, body@));
            m
        },
    }
}

/// The (role, content) strings of a chat-message object, when it has both.
pub open spec fn spec_message_fields(node: JsonNode) -> Option<(Seq<char>, Seq<char>)> {
    match (spec_get_field(node, "role"@), spec_get_field(node, "content"@)) {
        (Some(r), Some(c)) => match (spec_as_text(r), spec_as_text(c)) {
            (Some(rs), Some(cs)) => Some((rs, cs)),
            _ => None,
        },
        _ => None,
    }
}

/// The message fields of one answer choice.
pub open spec fn spec_choice_fields(node: JsonNode) -> Option<(Seq<char>, Seq<char>)> {
    match spec_get_field(node, "message"@) {
        Some(m) => spec_message_fields(m),
        None => None,
    }
}

/// Whether every element decodes as an answer choice.
pub open spec fn spec_all_choices_ok(items: Seq<JsonNode>) -> bool {
    forall|i: int| 0 <= i < items.len() ==> (#[trigger] spec_choice_fields(items[i])) is Some
}

/// The (role, content) pairs of a well-formed choice list.
pub open spec fn spec_choice_pairs(items: Seq<JsonNode>) -> Seq<(Seq<char>, Seq<char>)> {
    Seq::new(items.len(), |i: int| spec_choice_fields(items[i])->0)
}

/// The messages of an OpenAI-compatible success envelope: present exactly
/// when the tree has a `choices` array whose every element is well-formed.
pub open spec fn spec_openai_messages(tree: JsonNode) -> Option<Seq<(Seq<char>, Seq<char>)>> {
    match spec_get_field(tree, "choices"@) {
        Some(JsonNode::Array(items)) => if spec_all_choices_ok(items@) {
            Some(spec_choice_pairs(items@))
        } else {
            None
        },
        _ => None,
    }
}

/// The text of one Anthropic content block.
pub open spec fn spec_content_text(node: JsonNode) -> Option<Seq<char>> {
    match spec_get_field(node, "text"@) {
        Some(t) => spec_as_text(t),
        None => None,
    }
}

/// Whether every element decodes as a content block.
pub open spec fn spec_all_contents_ok(items: Seq<JsonNode>) -> bool {
    forall|i: int| 0 <= i < items.len() ==> (#[trigger] spec_content_text(items[i])) is Some
}

/// The texts of a well-formed content list.
pub open spec fn spec_content_texts(items: Seq<JsonNode>) -> Seq<Seq<char>> {
    Seq::new(items.len(), |i: int| spec_content_text(items[i])->0)
}

/// The texts of an Anthropic success envelope: present exactly when the
/// tree has a `content` array whose every element is well-formed.
pub open spec fn spec_anthropic_texts(tree: JsonNode) -> Option<Seq<Seq<char>>> {
    match spec_get_field(tree, "content"@) {
        Some(JsonNode::Array(items)) => if spec_all_contents_ok(items@) {
            Some(spec_content_texts(items@))
        } else {
            None
        },
        _ => None,
    }
}

fn decode_choice(item: &JsonNode) -> (r: Option<OpenAIChoice>)
    ensures
        match r {
            Some(c) => spec_choice_fields(*item) matches Some(p) && c.message.role@ == p.0
                && c.message.content@ == p.1,
            None => spec_choice_fields(*item) is None,
        },
{
    let msg_node = match get_field(item, "message") {
        Some(m) => m,
        None => {
            return None;
        },
    };
    let role_node = match get_field(msg_node, "role") {
        Some(x) => x,
        None => {
            return None;
        },
    };
    let content_node = match get_field(msg_node, "content") {
        Some(x) => x,
        None => {
            return None;
        },
    };
    let role = match as_text(role_node) {
        Some(s) => s,
        None => {
            return None;
        },
    };
    let content = match as_text(content_node) {
        Some(s) => s,
        None => {
            return None;
        },
    };
    Some(OpenAIChoice { message: ChatMessage { role: role.clone(), content: content.clone() } })
}

fn decode_content_block(item: &JsonNode) -> (r: Option<AnthropicContent>)
    ensures
        match r {
            Some(b) => spec_content_text(*item) matches Some(t) && b.text@ == t,
            None => spec_content_text(*item) is None,
        },
{
    let text_node = match get_field(item, "text") {
        Some(t) => t,
        None => {
            return None;
        },
    };
    let text = match as_text(text_node) {
        Some(s) => s,
        None => {
            return None;
        },
    };
    Some(AnthropicContent { text: text.clone() })
}

/// Decodes an OpenAI-compatible success envelope from a parsed tree,
/// mirroring what typed deserialization accepts: a `choices` array whose
/// every element carries `message.role` and `message.content` strings.
#[verifier::loop_isolation(false)]
pub fn decode_openai_response(tree: &JsonNode) -> (r: Option<OpenAIResponse>)
    ensures
        match r {
            Some(resp) => spec_openai_messages(*tree) matches Some(ps) && resp.choices@.len()
                == ps.len() && (forall|i: int|
                0 <= i < ps.len() ==> (#[trigger] resp.choices@[i]).message.role@ == ps[i].0
                    && resp.choices@[i].message.content@ == ps[i].1),
            None => spec_openai_messages(*tree) is None,
        },
{
    let choices_node = match get_field(tree, "choices") {
        Some(n) => n,
        None => {
            return None;
        },
    };
    let items: &Vec<JsonNode> = match choices_node {
        JsonNode::Array(v) => v,
        _ => {
            return None;
        },
    };
    let n = items.len();
    let mut choices: Vec<OpenAIChoice> = Vec::new();
    let mut i: usize = 0;
    while i < n
        invariant
            0 <= i <= n,
            choices@.len() == i,
            forall|j: int|
                0 <= j < i ==> (#[trigger] spec_choice_fields(items@[j])) is Some
                    && choices@[j].message.role@ == (spec_choice_fields(items@[j])->0).0
                    && choices@[j].message.content@ == (spec_choice_fields(items@[j])->0).1,
        decreases n - i,
    {
        let item = &items[i];
        match decode_choice(item) {
            Some(c) => {
                choices.push(c);
            },
            None => {
                proof {
                    assert(spec_choice_fields(items@[i as int]) is None);
                    assert(!spec_all_choices_ok(items@));
                }
                return None;
            },
        }
        i += 1;
    }
    proof {
        assert(spec_all_choices_ok(items@));
        assert forall|j: int| 0 <= j < items@.len() implies (
        #[trigger] spec_choice_pairs(items@)[j]) == spec_choice_fields(items@[j])->0 by {
        }
    }
    Some(OpenAIResponse { choices })
}

/// Decodes an Anthropic success envelope from a parsed tree: a `content`
/// array whose every element carries a `text` string.
#[verifier::loop_isolation(false)]
pub fn decode_anthropic_response(tree: &JsonNode) -> (r: Option<AnthropicResponse>)
    ensures
        match r {
            Some(resp) => spec_anthropic_texts(*tree) matches Some(ts) && resp.content@.len()
                == ts.len() && (forall|i: int|
                0 <= i < ts.len() ==> (#[trigger] resp.content@[i]).text@ == ts[i]),
            None => spec_anthropic_texts(*tree) is None,
        },
{
    let content_node = match get_field(tree, "content") {
        Some(n) => n,
        None => {
            return None;
        },
    };
    let items: &Vec<JsonNode> = match content_node {
        JsonNode::Array(v) => v,
        _ => {
            return None;
        },
    };
    let n = items.len();
    let mut blocks: Vec<AnthropicContent> = Vec::new();
    let mut i: usize = 0;
    while i < n
        invariant
            0 <= i <= n,
            blocks@.len() == i,
            forall|j: int|
                0 <= j < i ==> (#[trigger] spec_content_text(items@[j])) is Some && blocks@[j].text@
                    == spec_content_text(items@[j])->0,
        decreases n - i,
    {
        let item = &items[i];
        match decode_content_block(item) {
            Some(b) => {
                blocks.push(b);
            },
            None => {
                proof {
                    assert(spec_content_text(items@[i as int]) is None);
                    assert(!spec_all_contents_ok(items@));
                }
                return None;
            },
        }
        i += 1;
    }
    proof {
        assert(spec_all_contents_ok(items@));
        assert forall|j: int| 0 <= j < items@.len() implies (
        #[trigger] spec_content_texts(items@)[j]) == spec_content_text(items@[j])->0 by {
        }
    }
    Some(AnthropicResponse { content: blocks })
}

/// The text a success envelope yields: the first choice's message content
/// on the OpenAI-compatible protocols, the first content block's text on
/// Anthropic's; nothing when the envelope is malformed or the first
/// element is absent.
pub open spec fn spec_success_content(p: Provider, tree: JsonNode) -> Option<Seq<char>> {
    match p {
        Provider::Anthropic => match spec_anthropic_texts(tree) {
            Some(ts) => if ts.len() > 0 {
                Some(ts[0])
            } else {
                None
            },
            None => None,
        },
        _ => match spec_openai_messages(tree) {
            Some(ps) => if ps.len() > 0 {
                Some(ps[0].1)
            } else {
                None
            },
            None => None,
        },
    }
}

/// The message reported when a success body yields no text.
pub open spec fn spec_parse_failure_message(p: Provider, body: Seq<char>) -> Seq<char> {
    "Failed to parse "@ + spec_parse_label(p) + " response. Raw: "@ + body
}

fn parse_failure_message(p: Provider, body: &str) -> (r: String)
    ensures
        r@ == spec_parse_failure_message(p, body@),
{
    let mut m = String::from_str("Failed to parse ");
    m.append(parse_label(p));
    m.append(" response. Raw: ");
    m.append(body);
    assert(m@ =~= spec_parse_failure_message(p, body@));
    m
}

/// Turns the raw outcome of the HTTP call into the normalized result: a
/// non-success status becomes the normalized upstream error, a success
/// body yields exactly its extracted text, and a success body with no
/// extractable text is reported as a parse failure rather than read out of
/// bounds.
pub fn interpret_completion_response(provider: Provider, status: u16, body: &str) -> (r: Result<
    String,
    GatewayError,
>)
    ensures
        !(200 <= status < 300) ==> (r matches Err(GatewayError::Upstream(m)) && m@
            == spec_error_message(provider, status, body@)),
        (200 <= status < 300) ==> (match spec_parse_json(body@) {
            None => r matches Err(GatewayError::ResponseParse(m)) && m@
                == spec_parse_failure_message(provider, body@),
            Some(tree) => match spec_success_content(provider, tree) {
                Some(c) => r matches Ok(s) && s@ == c,
                None => r matches Err(GatewayError::ResponseParse(m)) && m@
                    == spec_parse_failure_message(provider, body@),
            },
        }),
{
    if !(status >= 200 && status < 300) {
        return Err(GatewayError::Upstream(parse_error_response(provider, status, body)));
    }
    let parsed = match parse_json(body) {
        Some(t) => t,
        None => {
            return Err(GatewayError::ResponseParse(parse_failure_message(provider, body)));
        },
    };
    match provider {
        Provider::Anthropic => {
            match decode_anthropic_response(&parsed) {
                Some(resp) => {
                    if resp.content.len() > 0 {
                        let head = &resp.content[0];
                        Ok(head.text.clone())
                    } else {
                        Err(GatewayError::ResponseParse(parse_failure_message(provider, body)))
                    }
                },
                None => Err(GatewayError::ResponseParse(parse_failure_message(provider, body))),
            }
        },
        _ => {
            match decode_openai_response(&parsed) {
                Some(resp) => {
                    if resp.choices.len() > 0 {
                        let head = &resp.choices[0];
                        Ok(head.message.content.clone())
                    } else {
                        Err(GatewayError::ResponseParse(parse_failure_message(provider, body)))
                    }
                },
                None => Err(GatewayError::ResponseParse(parse_failure_message(provider, body))),
            }
        },
    }
}

/// For every provider, a success envelope whose single element is
/// well-formed yields exactly that element's text — the extracted content,
/// never the raw envelope.
pub proof fn lemma_stub_envelope_extraction(p: Provider, tree: JsonNode, c: Seq<char>)
    requires
        (match p {
            Provider::Anthropic => {
                &&& spec_get_field(tree, "content"@) matches Some(arr)
                &&& arr matches JsonNode::Array(items)
                &&& items@.len() == 1
                &&& spec_content_text(items@[0]) == Some(c)
            },
            _ => {
                &&& spec_get_field(tree, "choices"@) matches Some(arr)
                &&& arr matches JsonNode::Array(items)
                &&& items@.len() == 1
                &&& spec_choice_fields(items@[0]) matches Some(pr) && pr.1 == c
            },
        }),
    ensures
        spec_success_content(p, tree) == Some(c),
{
    match p {
        Provider::Anthropic => {
            let arr = spec_get_field(tree, "content"@)->0;
            match arr {
                JsonNode::Array(items) => {
                    assert(spec_all_contents_ok(items@));
                    assert(spec_content_texts(items@)[0] == c);
                },
                _ => {},
            }
        },
        _ => {
            let arr = spec_get_field(tree, "choices"@)->0;
            match arr {
                JsonNode::Array(items) => {
                    assert(spec_all_choices_ok(items@));
                    assert(spec_choice_pairs(items@)[0].1 == c);
                },
                _ => {},
            }
        },
    }
}

/// A rate-limited Google proxy response whose `error` object arrives as
/// the first element of an array normalizes to the distinguished quota
/// message, built from only the text before the first newline of the
/// provider's message.
pub proof fn lemma_google_quota_message(body: Seq<char>, tree: JsonNode, msg: Seq<char>)
    requires
        ({
            &&& spec_parse_json(body) == Some(tree)
            &&& tree matches JsonNode::Array(_)
            &&& spec_get_index(tree, 0) matches Some(head)
            &&& spec_get_field(head, "error"@) matches Some(err)
            &&& spec_get_field(err, "message"@) matches Some(m)
            &&& spec_as_text(m) == Some(msg)
        }),
    ensures
        spec_error_message(Provider::GoogleProxy, 429, body) == "Gemini Quota Exceeded: "@
            + spec_first_line(msg) + ". Please wait a few seconds and try again."@,
{
    assert(spec_error_text(Provider::GoogleProxy, spec_parse_json(body)) == Some(msg));
}

fn bearer_headers(api_key: &str) -> (r: Vec<(String, String)>)
    ensures
        r@.len() == 2,
        r@[0].0@ == "Authorization"@,
        r@[0].1@ == "Bearer "@ + api_key@,
        r@[1].0@ == "Content-Type"@,
        r@[1].1@ == "application/json"@,
{
    let mut bearer = String::from_str("Bearer ");
    bearer.append(api_key);
    let mut headers: Vec<(String, String)> = Vec::new();
    headers.push((String::from_str("Authorization"), bearer));
    headers.push((String::from_str("Content-Type"), String::from_str("application/json")));
    headers
}

} // verus!
