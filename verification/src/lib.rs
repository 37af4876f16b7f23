//! A pooled, transactional SQL batch execution engine.
//!
//! Given a connection identifier and an ordered batch of parameterized SQL
//! statements, the engine runs the batch as one atomic unit of work against a
//! reusable, cached connection pool. The engine itself performs no I/O: it is
//! a verified decision core. A thin driver owns the database handles, asks the
//! engine what to do next, performs that action, and reports the outcome back
//! as an event.

pub mod values;
pub mod binder;
pub mod messages;
pub mod registry;
pub mod executor;
pub mod channel;
