//! A task scheduler: tasks run at instants, in time order, and may ask to be
//! run again.
pub mod time;
pub mod task_response;
pub mod optional;
pub mod time_key;
pub mod scheduler;
pub mod every;
pub mod trigger;
pub mod task_context;
pub mod callback;
pub mod scheduler_context;
pub mod context_injector;
pub mod conditional;
pub mod variadic_callback;
pub mod shared_type;
