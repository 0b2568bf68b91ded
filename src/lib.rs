/// The bounded ready queue: an executor that consumes it and spawners that
/// feed it from any thread.
pub mod executor;
/// The per-token wait status shared by computations and the thread that
/// observes OS readiness events, and the source of unique tokens.
pub mod reactor;
