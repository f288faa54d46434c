//! LeRobot dataset format: configuration and video encoding profiles.

pub mod config;
pub mod video_profiles;
