pub mod cpuset;
pub mod errors;
pub mod parameters;
pub mod policy;
pub mod status;

pub use self::cpuset::CpuSet;
pub use self::errors::SchedulerError;
pub use self::parameters::Parameters;
pub use self::policy::Policy;
pub use self::status::{policy_from_status, status_to_result};
