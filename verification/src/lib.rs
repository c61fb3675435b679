pub mod error;
pub mod execution_strategy;
pub mod reporter;
pub mod settings;
pub mod test_driver;
pub mod test_executor;
pub mod test_suite;
pub mod time;

pub use crate::execution_strategy::ExecutionStrategy;
pub use crate::settings::Settings;
pub use crate::test_suite::status::Statistics;
