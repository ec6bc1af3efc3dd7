pub mod emu;
pub mod iface;

pub use emu::{CanInterface, EmuPoll};
pub use iface::{export_can_stats, CanConfig, CanStats, RecvOutcome, CAN_IOCTL_SEND_EMU_EVENT};
