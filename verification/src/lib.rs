//! A minimal, statically sized real-time kernel core: rate-monotonic
//! scheduling of periodic tasks with a Liu & Layland schedulability test,
//! a monotonic microsecond time source, and a fixed-capacity
//! single-producer/single-consumer ring buffer.
//!
//! Every operation carries a contract: the scheduling, accounting and
//! queueing behaviour is verified against the mathematical model that
//! the spec functions of each module state.

pub mod kernel;
pub mod scheduler;
pub mod spsc;
pub mod task;
pub mod timer;

pub use kernel::Kernel;
pub use kernel::KernelStats;
pub use scheduler::Scheduler;
pub use spsc::SpscRing;
pub use task::Task;
pub use task::TaskPriority;
pub use task::TaskState;
pub use task::MAX_TASKS;
pub use timer::Deadline;
pub use timer::SysTimer;
