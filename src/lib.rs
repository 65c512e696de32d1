pub mod context;
pub mod isolate;
pub mod metrics;
pub mod ops;
pub mod registry;
