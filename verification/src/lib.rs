//! Native workflow orchestration: authorities, checkouts, workers, completions, consent and the
//! supervisor that connects them.
pub mod action;
pub mod agent;
pub mod app;
pub mod approvals;
pub mod authority;
pub mod backend;
pub mod base;
pub mod bridge;
pub mod catalog;
pub mod checkout;
pub mod completion;
pub mod consent;
pub mod digest;
pub mod dispatch;
pub mod editing;
pub mod effort;
pub mod error;
pub mod events;
pub mod failure;
pub mod grant;
pub mod headless;
pub mod host;
pub mod host_binding;
pub mod host_socket;
pub mod ids;
pub mod inventory;
pub mod json;
pub mod launch;
pub mod ledger;
pub mod path;
pub mod protocol;
pub mod prepare;
pub mod realtime;
pub mod registry;
pub mod release;
pub mod repository;
pub mod render;
pub mod review;
pub mod save;
pub mod serve;
pub mod session;
pub mod settings;
pub mod status;
pub mod text;
pub mod thread_table;
pub mod turn;
pub mod turn_flow;
pub mod turn_input;
pub mod turn_request;
pub mod worker;
pub mod worker_flow;
pub mod workspace;
