//! Rule-driven process scheduling: parsing of scheduling policies and
//! configuration rules, matching of rules against processes, CPU sets,
//! I/O priority encoding and the tracking of newly spawned PIDs.

pub mod config;
pub mod daemon;
pub mod pidwatcher;
pub mod priority;
pub mod scheduler;
pub mod target;
pub mod text;

pub use config::{By, Config, ConfigError, Entity, RawConfig, RawRule, Rule, RuleError, UserEntry};
pub use daemon::{config_candidates, Action};
pub use pidwatcher::{PidEvent, PidWatcher};
pub use priority::cpu::CpuPriority;
pub use priority::io::{prio_value, Class, IoPriority};
pub use scheduler::{policy_from_status, status_to_result};
pub use scheduler::{CpuSet, Parameters, Policy, SchedulerError};
pub use target::{Id, Process, ProcessGroup, User};
