//! Capture, merge and annotated rendering of source fragments for failures
//! inside hand-written parser-combinator code.

pub mod capture;
pub mod equality;
pub mod error;
pub mod function_context;
pub mod invocation;
pub mod layout;
pub mod prelude;
pub mod replay;
pub mod report;
pub mod signature;

pub use capture::{CaptureError, CaptureModel, SourceCapture};
pub use error::ContextError;
pub use function_context::FunctionContext;
pub use invocation::ParserSourceCapture;
pub use report::{AnnotatedReport, DiagnosticsMode};
pub use signature::SignatureParts;
