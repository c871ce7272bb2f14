//! The decision core of a small autonomous posting bot.
//!
//! The bot asks a language-model agent for a short text, records it in a
//! local history and publishes it to a chat webhook and to a social-media
//! account. Everything that touches the network, the disk or the clock is
//! left to the caller: this crate decides *what* has to happen next and the
//! caller reports back what came of it.

pub mod agent;
pub mod chance;
pub mod cycle;
pub mod memory;
pub mod providers;
pub mod runtime;
pub mod schedule;

pub use crate::agent::{Agent, Prompt};
pub use crate::cycle::{Action, Event, RunError};
pub use crate::memory::MemoryStore;
pub use crate::providers::{ChannelMessage, ConfigError, Discord, Tweet, TwitterType};
pub use crate::runtime::Runtime;
pub use crate::schedule::{LoopAction, LoopEvent, MAX_SLEEP_SECS, MIN_SLEEP_SECS};
