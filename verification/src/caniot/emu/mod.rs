pub mod behavior;
pub mod device;
pub mod dispatch;
pub mod helpers;
pub mod nodes;
pub mod pools;

pub use behavior::{
    Behavior, BoardControlBehavior, Class0Behavior, Class1Behavior, CounterBehavior, EchoBehavior,
    EmuRequest, RandomBehavior,
};
pub use device::Device;
pub use dispatch::DeviceBehavior;
pub use helpers::{EmuXps, EmuXpsState};
pub use nodes::{DemoController, Door, GarageController, HeatersController, OutdoorAlarmController};
pub use pools::{emu_pool1_add_devices_to_iface, emu_pool2_realistic_add_devices_to_iface};
