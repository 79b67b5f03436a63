pub mod args;
pub mod attach;
pub mod attach_laws;
pub mod base_laws;
pub mod calls;
pub mod client;
pub mod client_laws;
pub mod columns;
pub mod dummy_host;
pub mod exbash;
pub mod exbash_laws;
pub mod exbash_tool;
pub mod fields;
pub mod file_laws;
pub mod file_tool;
pub mod host;
pub mod host_laws;
pub mod json;
pub mod jsonrpc;
pub mod kept_refs;
pub mod laws;
pub mod list_laws;
pub mod list_tool;
pub mod local_event;
pub mod manager_laws;
pub mod manager_tool;
pub mod mcp;
pub mod memory_host;
pub mod number;
pub mod order;
pub mod output;
pub mod protocol_laws;
pub mod ptyt;
pub mod ptyt_laws;
pub mod refs;
pub mod rg;
pub mod rg_laws;
pub mod rg_tool;
pub mod screen_laws;
pub mod server;
pub mod session_file;
pub mod shown_laws;
pub mod skill;
pub mod skill_laws;
pub mod skill_tool;
pub mod store;
pub mod term_input;
pub mod term_list;
pub mod term_task;
pub mod text;
pub mod tool_call;
pub mod tooldefs;
pub mod traces;
pub mod types;
pub mod workspace;
