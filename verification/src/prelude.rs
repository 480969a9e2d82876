//! The names most callers need.

pub use crate::capture::SourceCapture;
pub use crate::error::ContextError;
pub use crate::function_context::FunctionContext;
pub use crate::invocation::ParserSourceCapture;
