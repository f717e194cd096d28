//! Background operation execution framework for a console maintenance tool.
//!
//! The heart of the crate is the worker/consumer protocol: an operation is a
//! fixed script of external steps run off the interactive thread; progress
//! flows back as an ordered stream of typed messages; cancellation is
//! cooperative and checked between steps.  The message protocol, the step
//! sequencing decisions, the consumer-side state updates and the surrounding
//! plain data types are all verified here; process launching, threads and the
//! terminal UI live outside the library and drive it through these types.

pub mod animation;
pub mod channel;
pub mod config;
pub mod consumer;
pub mod error;
pub mod i18n;
pub mod logger;
pub mod optimization;
pub mod theme;
pub mod text;
pub mod types;
pub mod utils;
pub mod worker;

pub use animation::{progress_bar, Pulse, Spinner};
pub use config::Config;
pub use consumer::UiState;
pub use error::WinOptError;
pub use i18n::{I18n, I18nKey, Language};
pub use logger::LogLevel;
pub use theme::Theme;
pub use types::{CleanStats, OperationState, View, WorkerMessage};
pub use utils::format_uptime;
pub use worker::{OperationWorker, Script, Step, StepOutcome};
