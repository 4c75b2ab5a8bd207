//! Handlers for the chunks that a builder hands out while it works.

use vstd::prelude::*;

verus! {

/// A builder that lets its user say what becomes of a chunk and of an
/// error: each handler is kept by the builder, which is handed back.
pub trait ChunkHandler<T>: Sized {
    /// Sets the handler for successful chunks.
    fn on_chunk<F>(self, handler: F) -> Self where F: Fn(T) -> T + Send + Sync + 'static;

    /// Sets the handler for errors, which turns the message into a chunk.
    fn on_error<F>(self, handler: F) -> Self where F: Fn(String) -> T + Send + Sync + 'static;
}

} // verus!
