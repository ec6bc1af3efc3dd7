pub mod demo;
pub mod garage;
pub mod heaters;
pub mod outdoor_alarm;

pub use demo::DemoController;
pub use garage::{Door, GarageController};
pub use heaters::HeatersController;
pub use outdoor_alarm::OutdoorAlarmController;
