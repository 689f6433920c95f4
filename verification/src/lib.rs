//! Client core of a block explorer: the link to the backend, the queries
//! issued over it, and the filtered view of what they return.
//!
//! Every subsystem is an explicit state value. A caller feeds it commands and
//! the outcomes of the transport and fetch capabilities, and reads back the
//! next state together with the action to perform.
//!
//! - The wire: [`varint`], [`wire`], [`heartbeat`], [`client_message`],
//!   [`server_message`].
//! - The link: [`ws_cross`], [`network_service`].
//! - The data: [`encoded_transaction`], [`cheap_block_transaction`].
//! - The filters: [`transaction_filter`], [`filter_registry`],
//!   [`filter_engine`], [`filter_panel`].
//! - The queries: [`signature`], [`transaction_service`], [`workspace_state`].
//! - The services around them: [`service_provider`], [`context_provider`],
//!   [`app_state`], [`auth_state`], [`user_service`], [`client_config`],
//!   [`time`].

pub mod app_state;
pub mod auth_state;
pub mod cheap_block_transaction;
pub mod client_config;
pub mod client_message;
pub mod context_provider;
pub mod encoded_transaction;
pub mod filter_engine;
pub mod filter_panel;
pub mod filter_registry;
pub mod heartbeat;
pub mod login_resp;
pub mod network_service;
pub mod server_message;
pub mod service_provider;
pub mod shared;
pub mod signature;
pub mod text;
pub mod time;
pub mod transaction_filter;
pub mod transaction_service;
pub mod user_service;
pub mod varint;
pub mod wire;
pub mod workspace_state;
pub mod ws_cross;

pub use workspace_state::WorkspaceState;
