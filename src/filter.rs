//! The advertisement filter: keeps service-data events and picks the payloads
//! to decode.
use vstd::prelude::*;

verus! {

/// A device lifecycle notification from the event source.
#[derive(Clone, Debug, PartialEq, Eq)]
pub enum AdvertisementEvent {
    /// The device's service data changed; `payloads` holds the values of its
    /// service-data map, in the source's iteration order.
    ServiceDataChanged { payloads: Vec<Vec<u8>> },
    /// Any other notification (discovery, connection, signal strength, ...).
    Other,
}

/// What the event source reports about a device when asked.
#[derive(Clone, Debug, PartialEq, Eq)]
pub struct DeviceMetadata {
    /// The device address as text.
    pub address: String,
    /// The signal strength, where the source has one.
    pub rssi: Option<i16>,
    /// The values of the manufacturer-data map, in the source's iteration order.
    pub manufacturer_data: Vec<Vec<u8>>,
}

/// The last payload of `payloads`, if there is one.
pub open spec fn last_payload(payloads: Seq<Vec<u8>>) -> Option<Seq<u8>> {
    if payloads.len() == 0 {
        None
    } else {
        Some(payloads.last()@)
    }
}

/// The payloads to decode for an event: the last service-data payload and the
/// last manufacturer-data payload. Nothing for an event that is not a
/// service-data change, for an empty service-data map, or when the device's
/// metadata could not be had.
pub open spec fn filtered(event: AdvertisementEvent, metadata: Option<DeviceMetadata>) -> Option<
    (Seq<u8>, Option<Seq<u8>>),
> {
    match (event, metadata) {
        (AdvertisementEvent::ServiceDataChanged { payloads }, Some(m)) => match last_payload(
            payloads@,
        ) {
            Some(service) => Some((service, last_payload(m.manufacturer_data@))),
            None => None,
        },
        _ => None,
    }
}

/// A borrowed view of the last payload in `payloads`.
fn last_of(payloads: &Vec<Vec<u8>>) -> (r: Option<&Vec<u8>>)
    ensures
        match r {
            Some(p) => last_payload(payloads@) == Some(p@),
            None => last_payload(payloads@) is None,
        },
{
    let n = payloads.len();
    if n == 0 {
        None
    } else {
        Some(&payloads[n - 1])
    }
}

/// Picks the service-data payload and the manufacturer-data payload of an event.
pub fn filter_event<'a>(event: &'a AdvertisementEvent, metadata: &'a Option<DeviceMetadata>) -> (r:
    Option<(&'a Vec<u8>, Option<&'a Vec<u8>>)>)
    ensures
        !(event is ServiceDataChanged) ==> r is None,
        match r {
            Some((service, manufacturer)) => filtered(*event, *metadata) == Some(
                (service@, crate::decode::payload_view(manufacturer)),
            ),
            None => filtered(*event, *metadata) is None,
        },
{
    match event {
        AdvertisementEvent::ServiceDataChanged { payloads } => match metadata {
            Some(m) => match last_of(payloads) {
                Some(service) => Some((service, last_of(&m.manufacturer_data))),
                None => None,
            },
            None => None,
        },
        AdvertisementEvent::Other => None,
    }
}

/// The signal strength from the device metadata, zero where there is none.
pub open spec fn rssi_or_zero(rssi: Option<i16>) -> i16 {
    match rssi {
        Some(v) => v,
        None => 0,
    }
}

/// Reads the signal strength of a device, defaulting to zero.
pub fn signal_strength(metadata: &DeviceMetadata) -> (r: i16)
    ensures
        r == rssi_or_zero(metadata.rssi),
{
    match metadata.rssi {
        Some(v) => v,
        None => 0,
    }
}

} // verus!
