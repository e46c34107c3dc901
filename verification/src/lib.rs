//! Client-side core of a topic-based push notification service.
//!
//! A caller builds an [`NtfyMsg`] (text, title, priority, tags, actions and
//! friends), and the library turns it into one outbound HTTP request: either
//! header-encoded (each optional field becomes one `X-...` header) or
//! JSON-encoded (the whole message as one JSON document).  The library also
//! builds the raw-text, webhook-trigger and binary-attachment requests, and
//! classifies a server response into a success payload, a structured API
//! error, or a decode error.  Dispatching the request over the network is
//! left to the embedding application.

mod encode;
mod json;
mod message;
mod request;
mod response;
mod settings;

pub use encode::action_fragment;
pub use encode::actions_header;
pub use encode::actions_header_value;
pub use encode::clear_fragment;
pub use encode::comma_free;
pub use encode::count_semicolons;
pub use encode::first_comma;
pub use encode::join_comma;
pub use encode::join_tags;
pub use encode::lemma_bare_message_no_extras;
pub use encode::lemma_join_comma_splits;
pub use encode::lemma_semicolon_count;
pub use encode::opt_header;
pub use encode::post_body;
pub use encode::post_headers;
pub use encode::semicolon_free;
pub use encode::split_comma;
pub use json::escape_char;
pub use json::escape_json;
pub use json::escape_seq;
pub use json::hex_digit;
pub use json::json_action;
pub use json::json_action_array;
pub use json::json_action_clear;
pub use json::json_actions_member;
pub use json::json_msg;
pub use json::json_msg_value;
pub use json::json_priority_member;
pub use json::json_str_array;
pub use json::json_string;
pub use json::json_tags_member;
pub use json::opt_json_str;
pub use message::ActionView;
pub use message::MsgView;
pub use message::NtfyAction;
pub use message::NtfyActionType;
pub use message::NtfyMsg;
pub use message::NtfyMsgBuilder;
pub use message::NtfyPriority;
pub use message::action_type_token;
pub use message::action_views;
pub use message::bare_msg_view;
pub use message::lemma_priority_bijection;
pub use message::opt_actions_view;
pub use message::opt_seq_view;
pub use message::opt_view;
pub use message::priority_digit;
pub use message::priority_level;
pub use message::priority_of_level;
pub use message::string_views;
pub use request::HttpMethod;
pub use request::HttpRequest;
pub use request::NtfyApi;
pub use request::RequestBody;
pub use request::headers_view;
pub use response::NtfyAttachment;
pub use response::NtfyError;
pub use response::NtfyErrorResponse;
pub use response::NtfyResponse;
pub use response::decode_response;
pub use response::is_success_status;
pub use settings::NtfyAuthorization;
pub use settings::NtfySettings;
