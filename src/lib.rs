//! A URL-protocol dispatcher: scheme validation, URL decomposition, the
//! registration layout of a protocol handler, and the send-or-launch decision
//! made for each incoming URL.

mod text;
pub mod scheme;
pub mod target;
pub mod registry;
pub mod store;
pub mod dispatch;
pub mod laws;

pub use text::replace_placeholder;
pub use scheme::{parse_scheme, SchemeError};
pub use target::{get_path_and_extras, parse_target, target_from_parts, DispatchError, DispatchTarget, UrlParts};
pub use registry::{
    clone_strings, get_configuration_registry_key, get_debug_args, get_protocol_registry_key,
    registration_plan, unregistration_plan, RegData, RegWrite, StoreError,
};
pub use store::{key_is_under, MemoryStore};
pub use dispatch::{
    channel_message, channel_name, fallback_command, needs_fallback, resolve, ChannelMessage,
    ProbeOutcome, Resolution, SpawnRequest,
};
