//! A "prelude" for users of the `delay-timer` crate: the items that most
//! users of the library import together.
pub use crate::entity::get_timestamp as timestamp;
pub use crate::entity::get_timestamp_micros as timestamp_micros;
pub use crate::entity::{get_timestamp, get_timestamp_micros, SharedHeader};
pub use crate::error::{CommandChildError, FrequencyAnalyzeError};
pub use crate::timer::event_handle::{EventHandle, FinishTaskBody, TimerEvent};
pub use crate::timer::runtime_trace::state::instance;
pub use crate::timer::runtime_trace::task_handle::{DelayTaskHandler, DelayTaskHandlerBox};
pub use crate::timer::runtime_trace::task_instance::Instance;
pub use crate::timer::task::FrequencyCronStr as Frequency;
pub use crate::timer::task::{ScheduleIteratorTimeZone, Task, TaskBuilder};
pub use crate::utils::convenience::cron_expression_grammatical_candy::{
    CandyCron, CandyCronStr, CandyFrequency,
};
pub use crate::utils::convenience::functions::{
    create_default_delay_task_handler, create_delay_task_handler,
};
pub use crate::utils::status_report::PublicEvent;

use vstd::prelude::*;

verus! {

/// State of the task run instance.
pub type InstanceState = usize;

} // verus!
