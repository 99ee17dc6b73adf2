pub mod agent;
pub mod agent_loop;
pub mod auto_fix;
pub mod budget;
pub mod cli;
pub mod client;
pub mod command_fix;
pub mod compaction;
pub mod config;
pub mod diff_review;
pub mod dispatch;
pub mod doc_skill;
pub mod handlers;
pub mod history;
pub mod json;
pub mod lifecycle;
pub mod loop_machine;
pub mod laws;
pub mod hooks;
pub mod message_utils;
pub mod messages;
pub mod output;
pub mod paths;
pub mod policy;
pub mod process;
pub mod recovery;
pub mod reliability;
pub mod rewrite;
pub mod runner;
pub mod stream_tools;
pub mod symbol_edit;
pub mod test_fix;
pub mod testing;
pub mod text;
pub mod tool_defs;
pub mod ui_rendering;
pub mod verification;
pub mod wire;
pub mod workflow;
pub mod worktree;
