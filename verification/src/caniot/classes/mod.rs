pub mod class0;
pub mod class1;
pub mod codec;
pub mod telemetry;
pub mod traits;
pub mod utils;

pub use telemetry::{boardlc_parse_telemetry, boardlc_parse_telemetry_as_class, BoardClassTelemetry};
pub use traits::{Class, ClassCommandTrait, TempSensType};
pub use utils::{blc_parse_telemetry, blc_parse_telemetry_as_class, BlcClassTelemetry};
