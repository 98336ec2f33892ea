//! The names most hosts need, in one place.

pub use crate::client::{call_request, call_result, is_success_status, CallOutcome, CallRequest};
pub use crate::connection::{
    ConnectionAction, ConnectionEvent, ConnectionLoop, ConnectionState, Transition,
};
pub use crate::context::{IpAddress, RequestContext};
pub use crate::descriptor::{Encoding, FunctionDescriptor, Method, ParamField, Transport};
pub use crate::engine::{
    error_reply, item_event, result_event, settle_rpc, HandlerOutcome, Reply, Settled,
};
pub use crate::event::{Event, Field};
pub use crate::error::{ErrorKind, ServerFnError};
pub use crate::link::{Phase, Report, Task};
pub use crate::path::{validate_api_path, PathError};
pub use crate::reconnect::ReconnectConfig;
pub use crate::registry::{
    define_function, DispatchTable, RegistryError, ServerFnRouter, ServerFunction,
};
pub use crate::scope::{
    provide_context, request_context, try_request_context, try_use_context, use_context, NotFound,
    Scope,
};
pub use crate::socket::{
    outbound_step, socket_step, Frame, OutboundStep, SocketEvent, SocketStep,
};
pub use crate::sse::{SseError, SseStream};
pub use crate::wire::{decode_error, encode_error, with_app_error};
pub use crate::ws::{WsConnectionState, WsError, WsStream};
