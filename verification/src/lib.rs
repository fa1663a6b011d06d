//! A typed client-side layer for the W3C WebDriver wire protocol.
//!
//! The crate turns high-level browser-automation commands into wire
//! requests (HTTP method, session-scoped path, JSON body) and decodes
//! the server's JSON responses back into typed values, resolving the
//! opaque remote-object references that may be nested anywhere inside
//! a response tree.

mod chrome;
mod command;
mod cookie;
mod json;
mod request;
mod response;
mod timeouts;
mod value;

pub use json::Json;
pub use json::JsonV;
pub use json::json_view;

pub use value::ELEMENT_KEY;
pub use value::SHADOW_ROOT_KEY;
pub use value::WINDOW_KEY;
pub use value::RefKind;
pub use value::RemoteRef;
pub use value::RemoteRefV;
pub use value::WebValue;
pub use value::WebValueV;
pub use value::bound_to;
pub use value::canonical;
pub use value::decode_value;
pub use value::decode_wire;
pub use value::encode_value;
pub use value::encode_values;
pub use value::encode_values_wire;
pub use value::encode_wire;
pub use value::lemma_decode_after_encode;
pub use value::lemma_decode_ref_exactly_on_sentinel_shape;
pub use value::lemma_decode_canonical;
pub use value::lemma_encode_after_decode;
pub use value::lemma_sentinel_keys_differ;
pub use value::ref_shape;
pub use value::spec_sentinel_key;
pub use value::sentinel_key;
pub use value::value_view;
pub use chrome::ChromeCommand;
pub use chrome::NetworkConditions;
pub use chrome::network_conditions_body;
pub use command::By;
pub use command::Command;
pub use command::FormatRequestData;
pub use command::lemma_decoded_handle_embeds_unchanged;
pub use command::update_timeouts_request;
pub use cookie::Cookie;
pub use cookie::SameSite;
pub use cookie::cookie_body;
pub use cookie::same_site_str;
pub use cookie::spec_same_site_str;
pub use request::RequestData;
pub use request::RequestDataV;
pub use request::RequestMethod;
pub use request::SessionId;
pub use request::session_path;
pub use response::Status;
pub use response::WebDriverError;
pub use response::decode_protocol_error;
pub use response::decode_status;
pub use response::decode_value_response;
pub use response::entries_of;
pub use response::spec_lookup;
pub use response::spec_value_of;
pub use timeouts::TimeoutConfiguration;
pub use timeouts::lemma_merge_all_fields;
pub use timeouts::lemma_merge_assoc;
pub use timeouts::spec_merge;
pub use timeouts::spec_merge_all;
pub use timeouts::spec_overlay;
pub use timeouts::timeouts_body;
