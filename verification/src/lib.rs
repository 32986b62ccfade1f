//! Request-processing core of a tool-invocation server.
//!
//! The server reads JSON-RPC requests, one per line, and answers each with
//! one line. This library holds what the server decides and computes:
//!
//! - [`batch`]: collecting request lines into batches, putting responses in
//!   the order of their requests, buffering and framing what is written;
//! - [`server`]: the dispatcher, from a request line to its response or to
//!   the operation that has to run first, with the response cache in front;
//! - [`tools`]: the operations and the catalog that describes them;
//! - [`cache`]: the response cache with expiry and least-recently-used
//!   eviction, its counters, and the response buffer;
//! - [`pool`] and [`retry`]: acquiring a connection to the store, with
//!   bounded retries and exponential backoff;
//! - [`search`] and [`reply`]: the schema and the queries of the search
//!   index, and the decoding of its flat replies;
//! - [`knowledge`], [`heartbeat`], [`tasks`]: what the operations write,
//!   decide and report;
//! - [`schemas`]: the records that the operations exchange;
//! - [`json`], [`text`], [`ambient`]: JSON values, texts, and what comes
//!   from outside the program.
//!
//! Reading and writing, the store and the task-tracking service are the
//! caller's: the library takes what was read and says what to do next.
//!
//! Every function carries a contract that Verus proves. Calls into other
//! crates are made by small functions whose bodies Verus does not read;
//! their contracts are taken on trust and documented where they stand.

pub mod ambient;
pub mod batch;
pub mod cache;
pub mod heartbeat;
pub mod json;
pub mod knowledge;
pub mod pool;
pub mod reply;
pub mod retry;
pub mod schemas;
pub mod search;
pub mod server;
pub mod tasks;
pub mod text;
pub mod tools;
