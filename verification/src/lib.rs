//! Running a metadata extractor as a child process: how it is invoked, how its
//! output is gathered, and how its end is turned into one result.

pub mod aggregator;
pub mod command;
pub mod event;
pub mod failure;
pub mod guarantees;
pub mod outcome;
pub mod resolver;
pub mod text;
pub mod video_info;

pub use video_info::VideoInfo;
