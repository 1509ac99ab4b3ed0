//! Block-device adapter core for the eMMC controller of the RK3568.
//!
//! The adapter sits between a generic block-device framework and the
//! controller driver that speaks the card protocol. This crate holds every
//! decision the adapter takes: which transfer buffers it accepts, which
//! transfer it asks of the controller, and how a fault of the card protocol is
//! reported upward. Register access is left to the caller, who performs the
//! [`driver::Transfer`] handed out and reports how it ended.

pub mod buffer;
pub mod driver;
pub mod error;

pub use crate::buffer::{Alignment, BufferLayout, BLOCK_SIZE, WORD_SIZE};
pub use crate::driver::{Direction, EmmcDriver, Transfer};
pub use crate::error::{deal_emmc_err, SdError};
