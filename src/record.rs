//! The decoded reading of a device and its marshaled, fixed-shape record.
use vstd::prelude::*;

verus! {

/// A reading as the payload decoder produces it, one variant per device kind.
#[derive(Clone, Copy, Debug, PartialEq, Eq, Structural)]
pub enum Reading {
    Bot { battery: u8, state: bool },
    Meter { battery: u8, temperature: i32, humidity: u8 },
    Plug { wifi_rssi: i16, state: bool, watts: i16, overload: bool },
    Humidifier { state: bool, humidity: u8, auto_mode: bool },
}

/// Toggle device: battery level and on/off state.
#[derive(Clone, Copy, Debug, PartialEq, Eq, Structural)]
pub struct CSwitchBotBotData {
    pub bluetooth_rssi: i16,
    pub battery: u8,
    pub state: bool,
}

/// Power-metering plug.
#[derive(Clone, Copy, Debug, PartialEq, Eq, Structural)]
pub struct CSwitchBotPlugData {
    pub bluetooth_rssi: i16,
    pub wifi_rssi: i16,
    pub state: bool,
    pub watts: i16,
    pub overload: bool,
}

/// Environmental sensor: temperature, relative humidity, battery level.
#[derive(Clone, Copy, Debug, PartialEq, Eq, Structural)]
pub struct CSwitchBotMeterData {
    pub bluetooth_rssi: i16,
    pub temperature: i32,
    pub humidity: u8,
    pub battery: u8,
}

/// Climate-control device.
#[derive(Clone, Copy, Debug, PartialEq, Eq, Structural)]
pub struct CSwitchBotHumidifierData {
    pub bluetooth_rssi: i16,
    pub humidity: u8,
    pub state: bool,
    pub auto_mode: bool,
}

/// The vendor a record comes from.
#[derive(Clone, Copy, Debug, PartialEq, Eq, Structural)]
pub enum DeviceManufacturer {
    SwitchBot,
}

/// The vendor-specific product tag; the variant is selected by the manufacturer.
#[derive(Clone, Copy, Debug, PartialEq, Eq, Structural)]
pub enum DeviceModel {
    /// The model identifier byte that the vendor assigns to the product.
    SwitchBot(u8),
}

/// The device-specific part of a record. Exactly one kind is present, and
/// it is the kind of the reading the record was built from.
#[derive(Clone, Copy, Debug, PartialEq, Eq, Structural)]
pub enum DeviceData {
    SwitchBotBot(CSwitchBotBotData),
    SwitchBotPlug(CSwitchBotPlugData),
    SwitchBotMeter(CSwitchBotMeterData),
    SwitchBotHumidifier(CSwitchBotHumidifierData),
}

/// One marshaled record: manufacturer tag, model tag and device data.
#[derive(Clone, Copy, Debug, PartialEq, Eq, Structural)]
pub struct SensorData {
    pub manufacturer: DeviceManufacturer,
    pub model: DeviceModel,
    pub device_data: DeviceData,
}

impl DeviceModel {
    pub open spec fn manufacturer(self) -> DeviceManufacturer {
        match self {
            DeviceModel::SwitchBot(_) => DeviceManufacturer::SwitchBot,
        }
    }
}

impl DeviceData {
    /// The signal strength injected into the record.
    pub open spec fn bluetooth_rssi(self) -> i16 {
        match self {
            DeviceData::SwitchBotBot(d) => d.bluetooth_rssi,
            DeviceData::SwitchBotPlug(d) => d.bluetooth_rssi,
            DeviceData::SwitchBotMeter(d) => d.bluetooth_rssi,
            DeviceData::SwitchBotHumidifier(d) => d.bluetooth_rssi,
        }
    }

    /// The reading that the device data carries.
    pub open spec fn reading(self) -> Reading {
        match self {
            DeviceData::SwitchBotBot(d) => Reading::Bot { battery: d.battery, state: d.state },
            DeviceData::SwitchBotPlug(d) => Reading::Plug {
                wifi_rssi: d.wifi_rssi,
                state: d.state,
                watts: d.watts,
                overload: d.overload,
            },
            DeviceData::SwitchBotMeter(d) => Reading::Meter {
                battery: d.battery,
                temperature: d.temperature,
                humidity: d.humidity,
            },
            DeviceData::SwitchBotHumidifier(d) => Reading::Humidifier {
                state: d.state,
                humidity: d.humidity,
                auto_mode: d.auto_mode,
            },
        }
    }

    /// Whether the device data is of the same kind as `r`.
    pub open spec fn same_kind(self, r: Reading) -> bool {
        match (self, r) {
            (DeviceData::SwitchBotBot(_), Reading::Bot { .. }) => true,
            (DeviceData::SwitchBotPlug(_), Reading::Plug { .. }) => true,
            (DeviceData::SwitchBotMeter(_), Reading::Meter { .. }) => true,
            (DeviceData::SwitchBotHumidifier(_), Reading::Humidifier { .. }) => true,
            _ => false,
        }
    }
}

impl SensorData {
    /// The manufacturer tag agrees with the model tag.
    pub open spec fn wf(self) -> bool {
        self.model.manufacturer() == self.manufacturer
    }
}

/// The device data built from `reading`, with `rssi` injected.
pub open spec fn device_data_of(reading: Reading, rssi: i16) -> DeviceData {
    match reading {
        Reading::Bot { battery, state } => DeviceData::SwitchBotBot(
            CSwitchBotBotData { bluetooth_rssi: rssi, battery, state },
        ),
        Reading::Meter { battery, temperature, humidity } => DeviceData::SwitchBotMeter(
            CSwitchBotMeterData { bluetooth_rssi: rssi, temperature, humidity, battery },
        ),
        Reading::Plug { wifi_rssi, state, watts, overload } => DeviceData::SwitchBotPlug(
            CSwitchBotPlugData { bluetooth_rssi: rssi, wifi_rssi, state, watts, overload },
        ),
        Reading::Humidifier { state, humidity, auto_mode } => DeviceData::SwitchBotHumidifier(
            CSwitchBotHumidifierData { bluetooth_rssi: rssi, humidity, state, auto_mode },
        ),
    }
}

/// The record for a SwitchBot reading of product `model`, received at `rssi`.
pub open spec fn marshaled(model: u8, reading: Reading, rssi: i16) -> SensorData {
    SensorData {
        manufacturer: DeviceManufacturer::SwitchBot,
        model: DeviceModel::SwitchBot(model),
        device_data: device_data_of(reading, rssi),
    }
}

/// Builds the record of a decoded reading, injecting the signal strength.
pub fn marshal(model: u8, reading: Reading, bluetooth_rssi: i16) -> (r: SensorData)
    ensures
        r == marshaled(model, reading, bluetooth_rssi),
        r.wf(),
{
    let device_data = match reading {
        Reading::Bot { battery, state } => DeviceData::SwitchBotBot(
            CSwitchBotBotData { bluetooth_rssi, battery, state },
        ),
        Reading::Meter { battery, temperature, humidity } => DeviceData::SwitchBotMeter(
            CSwitchBotMeterData { bluetooth_rssi, temperature, humidity, battery },
        ),
        Reading::Plug { wifi_rssi, state, watts, overload } => DeviceData::SwitchBotPlug(
            CSwitchBotPlugData { bluetooth_rssi, wifi_rssi, state, watts, overload },
        ),
        Reading::Humidifier { state, humidity, auto_mode } => DeviceData::SwitchBotHumidifier(
            CSwitchBotHumidifierData { bluetooth_rssi, humidity, state, auto_mode },
        ),
    };
    SensorData {
        manufacturer: DeviceManufacturer::SwitchBot,
        model: DeviceModel::SwitchBot(model),
        device_data,
    }
}

/// Marshaling keeps everything: the record holds device data of the reading's
/// own kind, reading it back gives the reading unchanged, and the injected
/// signal strength and model tag are the ones passed in.
pub proof fn lemma_marshal_round_trip(model: u8, reading: Reading, rssi: i16)
    ensures
        marshaled(model, reading, rssi).wf(),
        marshaled(model, reading, rssi).device_data.same_kind(reading),
        marshaled(model, reading, rssi).device_data.reading() == reading,
        marshaled(model, reading, rssi).device_data.bluetooth_rssi() == rssi,
        marshaled(model, reading, rssi).model == DeviceModel::SwitchBot(model),
{
}

} // verus!
