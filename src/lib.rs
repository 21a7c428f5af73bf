//! Turns BLE advertisement events into flat sensor records for a synchronous
//! callback: filter the events, decode the vendor payload, marshal the reading.
pub mod bridge;
pub mod decode;
pub mod driver;
pub mod filter;
pub mod record;

pub use bridge::{deliver, handle_event, is_boundary_safe, Delivery};
pub use decode::{dispatch, recognise};
pub use driver::{Action, Driver, DriverState, SourceItem, TerminalReason};
pub use filter::{filter_event, signal_strength, AdvertisementEvent, DeviceMetadata};
pub use record::{
    CSwitchBotBotData, CSwitchBotHumidifierData, CSwitchBotMeterData, CSwitchBotPlugData,
    DeviceData, DeviceManufacturer, DeviceModel, Reading, SensorData, marshal,
};
