//! Typed request and response contract between UI clients and the engine.

pub mod bounds;
pub mod error;
pub mod event;
pub mod paging;
pub mod request;
pub mod response;
pub mod version;

pub use bounds::{Cursor, MaxBytes, MaxHunks, PageSize, WindowSize};
pub use error::{Error, ErrorCode};
pub use event::Event;
pub use paging::{Paging, StreamingChunk};
pub use request::Request;
pub use response::Response;
pub use version::ApiVersion;
