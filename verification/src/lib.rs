//! A deduplicating pool of compiled byte-oriented regular expressions.
//!
//! A [`Pool`] keeps at most one compiled matcher per pattern text. Every
//! [`Regex`] handle that it gives out for a text shares that matcher, and the
//! matcher is given up when the last handle for the text is released.
//!
//! - `matcher`: compiled matchers, handles and compile errors.
//! - `pool`: the pool, its states and the two transitions between them.
//! - `laws`: what holds of every pool state and every sequence of requests
//!   and releases.

pub mod laws;
pub mod matcher;
pub mod pool;
mod registry;

pub use matcher::{CompileError, CompiledMatcher, Regex};
pub use pool::Pool;
