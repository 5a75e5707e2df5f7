pub mod adapter;
pub mod descriptors;
pub mod ids;
pub mod test_adapter;
pub mod hit;
pub mod selection;
pub mod drag;
pub mod event;
pub mod operators;
pub mod dispatch;
pub mod errors;
pub mod engine;
pub mod registry;
pub mod scheduler;
pub mod draw;
pub mod interaction;
pub mod socket_ui;
pub mod text_cache;
pub mod topology;
pub mod view_table;
pub mod runtime;
pub mod input_handler;
pub mod logging;
