pub mod accepted_client_mapping;
pub mod action_event;
pub mod client_event;
pub mod client_disconnect;
pub mod client_id;
pub mod client_session;
pub mod commit_stages;
pub mod diagnostic_event;
pub mod driver;
pub mod linux_adapter;
pub mod nested_runtime_loop;
pub mod nested_runtime_orchestrator;
pub mod nested_socket_flow;
pub mod nested_socket_probe;
pub mod output_event;
pub mod protocol_bootstrap;
pub mod real_accept_flow;
pub mod real_disconnect_flow;
pub mod runtime;
pub mod runtime_facade;
pub mod scenario;
pub mod surface_event;
pub mod toplevel_event;
pub mod surface_id;
pub mod surface_lifecycle;
pub mod surface_trace;
pub mod surface_window_intent;
pub mod window_admission_preview;
pub mod surface_admission_pipeline;
pub mod surface_admission_contract;
