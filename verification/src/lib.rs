//! Boundary contract between a sandboxed contract-execution engine and the
//! host state machine it runs inside.
//!
//! Every operation the engine cannot perform on its own crosses this boundary
//! as a host call: storage reads and writes, transient storage, calls into
//! other contracts, contract creation, log emission, account queries, memory
//! growth and tracing. Each call is metered in two resource units (coarse
//! [`Gas`] and engine-local [`Ink`]) and classified into a small, closed set
//! of outcomes.

pub mod api;
pub mod bytes;
pub mod counter;
pub mod host;
pub mod outcome;
pub mod reader;
pub mod registry;
pub mod slot_map;

pub use api::EvmApi;
pub use api::EvmContext;
pub use api::HostError;
pub use api::UserOutcomeKind;
pub use bytes::Bytes20;
pub use bytes::Bytes32;
pub use counter::Gas;
pub use counter::Ink;
pub use host::MemoryHost;
pub use outcome::EvmApiStatus;
pub use reader::DataReader;
pub use reader::VecReader;
pub use registry::EVM_API_METHOD_REQ_OFFSET;
pub use registry::EvmApiMethod;
