//! Iterator-style adapter with bounded multi-forward-peek and
//! multi-backward-peek.
//!
//! [`Peekable`] wraps a forward-only sequence producer (a [`Source`]) and adds
//! non-destructive lookahead and lookbehind: a fixed-capacity forward buffer
//! holds elements pulled ahead of the cursor, and a fixed-capacity backward
//! buffer holds duplicates of the most recently consumed elements.  Every
//! operation degrades to "not available" (`None`) instead of failing: peeking
//! past capacity, peeking into missing history and pulling from an exhausted
//! source all return `None`.

pub mod deque;
pub mod item;
pub mod laws;
pub mod model;
pub mod peekable;
pub mod source;

pub use deque::BoundedDeque;
pub use item::Duplicate;
pub use model::PeekState;
pub use peekable::Peekable;
pub use source::Fused;
pub use source::ResumingSource;
pub use source::Source;
pub use source::VecSource;
