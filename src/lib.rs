//! Inbound SMS webhook handling: the message record, the sender
//! acceptance policy, the dispatch decisions and the log line layout.
pub mod dispatch;
pub mod logline;
pub mod message;
pub mod policy;

pub use dispatch::{
    step, DispatchAction, DispatchEvent, DispatchState, LogEntry, LogLevel, Response, Status, Step,
};
pub use logline::{
    format_line, log_file_path, recv_callback_error, recv_callback_log, rfc3339, UtcTime,
};
pub use message::InboundMessage;
pub use policy::{build_policy, check_num, NumberAcceptance};
