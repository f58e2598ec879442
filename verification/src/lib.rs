//! Backend core for a LaTeX editing application: a provider gateway that
//! normalizes three AI chat-completion protocols behind one contract, and a
//! compilation supervisor that drives an external typesetting engine and
//! validates its output.

pub mod compile;
pub mod gateway;
pub mod json;
pub mod outline;
pub mod text;

pub use compile::CompileError;
pub use compile::CompilePlan;
pub use compile::WorkspaceErrorKind;
pub use compile::evaluate_compile_outcome;
pub use compile::plan_compile;
pub use gateway::AnthropicContent;
pub use gateway::AnthropicRequest;
pub use gateway::AnthropicResponse;
pub use gateway::ChatMessage;
pub use gateway::GatewayError;
pub use gateway::OpenAIChoice;
pub use gateway::OpenAIRequest;
pub use gateway::OpenAIResponse;
pub use gateway::Provider;
pub use gateway::RequestPlan;
pub use gateway::anthropic_request_json;
pub use gateway::decode_anthropic_response;
pub use gateway::decode_openai_response;
pub use gateway::interpret_completion_response;
pub use gateway::lemma_google_quota_message;
pub use gateway::lemma_stub_envelope_extraction;
pub use gateway::openai_request_json;
pub use gateway::parse_error_response;
pub use gateway::parse_provider;
pub use gateway::prepare_completion;
pub use json::JsonNode;
pub use json::as_text;
pub use json::get_field;
pub use json::get_index;
pub use json::is_array_node;
pub use json::parse_json;
pub use outline::OutlineItem;
pub use outline::get_document_outline;
pub use outline::split_lines;
pub use text::first_line;
pub use text::is_blank;
pub use text::str_eq;
pub use text::u64_to_decimal;
