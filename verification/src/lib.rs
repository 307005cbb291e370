//! Connection manager for tool-provider servers.
//!
//! A host application discovers and invokes "tools" exposed by external
//! tool-provider servers, reached either by spawning a local helper process
//! or by opening a remote event-stream endpoint.  This crate holds the
//! verified core of that manager: the command policy that validates and
//! rewrites a local-spawn descriptor, the transport selection, the
//! identity-keyed session registry, the tool-catalog builder, and the
//! decision logic of the four public operations (start, list tools, call
//! tool, stop).  The surrounding process plumbing — spawning, event-stream
//! connects, the tool-provider protocol itself — is performed by the host
//! on behalf of the decisions made here.

pub mod catalog;
pub mod descriptor;
pub mod errors;
pub mod laws;
pub mod ops;
pub mod policy;
pub mod registry;
pub mod transport;
pub mod views;

pub use descriptor::MCPServer;
pub use errors::CommandError;
pub use errors::McpError;
pub use policy::LaunchPlan;
pub use registry::SessionId;
pub use registry::SessionTable;
pub use transport::TransportPlan;
pub use catalog::MCPTool;
pub use catalog::RawTool;
pub use catalog::ToolSchema;
pub use catalog::make_mcp_tool_list;
pub use ops::SessionStep;
pub use ops::acquire_step;
