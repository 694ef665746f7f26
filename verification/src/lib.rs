//! Core of a multi-source video-capture driver: a single producer thread per
//! reader fills a small slot ring, any number of consumers read it with
//! latest-or-next semantics, and an export server republishes exportable
//! readers over the wire with reference-counted start/stop.

pub mod client;
pub mod codec;
pub mod config;
pub mod driver;
pub mod error;
pub mod export;
pub mod frame;
pub mod producer;
pub mod queue;
pub mod reader;

pub use config::{
    CamConfig, ClientConfig, OneConfig, RtspConfig, VideoColor, VideoConfig, VideoMeta,
};
pub use driver::{DriverRunningState, DriverState};
pub use error::Error;
pub use export::{EyeRequest, EyeRequestType, EyeResponse, PORT};
pub use frame::{Frame, Image};
pub use queue::Queue;
