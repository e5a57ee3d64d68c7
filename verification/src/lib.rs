//! Error representation layer of an HTTP engine: a pointer-sized error
//! container holding one failure `Kind` and an optional chained `Cause`,
//! with introspection predicates and a protocol reason mapper.
pub mod error;
pub mod trusted;

pub use error::Cause;
pub use error::CauseTag;
pub use error::Error;
pub use error::Header;
pub use error::Kind;
pub use error::Parse;
pub use error::TimedOut;
pub use error::User;
