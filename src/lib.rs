//! A scheduled-task definition, its XML form for the task-scheduler schema,
//! and the decision logic that registers such a document with the native
//! scheduling service while releasing every acquired handle.

pub mod bridge;
pub mod numerals;
pub mod emitter;
pub mod events;
pub mod laws;
pub mod serializer;
pub mod types;
pub mod wide;

pub use types::{
    Action, IdleSettings, MultipleInstancesPolicy, Settings, Subscription, Task, Trigger, Value,
    Version,
};
pub use bridge::WinError;
pub use events::SerializationError;
