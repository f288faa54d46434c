//! KPS dataset format: delivery layout, task metadata and writers.

pub mod writers;
pub mod task_info;
pub mod delivery;
pub mod delivery_v12;
