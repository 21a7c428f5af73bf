//! The callback bridge: what is handed to the caller's callback for one event.
use vstd::prelude::*;

use crate::decode::{dispatch, recognised, switchbot_decode};
use crate::filter::{filter_event, filtered, rssi_or_zero, signal_strength, AdvertisementEvent, DeviceMetadata};
use crate::record::{marshal, marshaled, SensorData};

verus! {

/// One callback invocation: the device address and the record.
#[derive(Clone, Debug, PartialEq, Eq)]
pub struct Delivery {
    pub address: String,
    pub record: SensorData,
}

impl View for Delivery {
    type V = (Seq<char>, SensorData);

    open spec fn view(&self) -> (Seq<char>, SensorData) {
        (self.address@, self.record)
    }
}

/// The view of an optional delivery.
pub open spec fn delivery_view(d: Option<Delivery>) -> Option<(Seq<char>, SensorData)> {
    match d {
        Some(d) => Some(d@),
        None => None,
    }
}

/// An address can cross the call boundary as a NUL-terminated string only if
/// it holds no NUL character.
pub open spec fn boundary_safe(address: Seq<char>) -> bool {
    forall|i: int| 0 <= i < address.len() ==> address[i] != '\0'
}

/// Tells whether `address` can be handed over as a NUL-terminated string.
pub fn is_boundary_safe(address: &String) -> (r: bool)
    ensures
        r == boundary_safe(address@),
{
    let s = address.as_str();
    let n = s.unicode_len();
    let mut i: usize = 0;
    while i < n
        invariant
            s@ == address@,
            n == s@.len(),
            i <= n,
            forall|j: int| 0 <= j < i ==> s@[j] != '\0',
        decreases n - i,
    {
        if s.get_char(i) == '\0' {
            return false;
        }
        i = i + 1;
    }
    true
}

/// The delivery for a recognised reading from the device `metadata` describes:
/// the record carries the device's signal strength (zero when it has none), and
/// nothing is delivered when the address cannot cross the boundary.
pub open spec fn delivered(model: u8, reading: crate::record::Reading, metadata: DeviceMetadata) -> Option<
    (Seq<char>, SensorData),
> {
    if boundary_safe(metadata.address@) {
        Some((metadata.address@, marshaled(model, reading, rssi_or_zero(metadata.rssi))))
    } else {
        None
    }
}

/// What one event delivers to the callback, if anything.
pub open spec fn handled(event: AdvertisementEvent, metadata: Option<DeviceMetadata>) -> Option<
    (Seq<char>, SensorData),
> {
    match filtered(event, metadata) {
        Some((service, manufacturer)) => match recognised(switchbot_decode(service, manufacturer)) {
            Some((model, reading)) => delivered(model, reading, metadata.unwrap()),
            None => None,
        },
        None => None,
    }
}

/// Builds the delivery for a recognised reading of the device `metadata`
/// describes.
pub fn deliver(model: u8, reading: crate::record::Reading, metadata: DeviceMetadata) -> (r: Option<Delivery>)
    ensures
        delivery_view(r) == delivered(model, reading, metadata),
{
    if !is_boundary_safe(&metadata.address) {
        return None;
    }
    let record = marshal(model, reading, signal_strength(&metadata));
    Some(Delivery { address: metadata.address, record })
}

/// Runs one event through filter, decoder and marshaler. `metadata` is what
/// the source reported for the event's device, `None` where the lookup failed.
pub fn handle_event(event: &AdvertisementEvent, metadata: Option<DeviceMetadata>) -> (r: Option<Delivery>)
    ensures
        delivery_view(r) == handled(*event, metadata),
        !(event is ServiceDataChanged) ==> r is None,
        metadata is None ==> r is None,
{
    let decoded = match filter_event(event, &metadata) {
        Some((service, manufacturer)) => dispatch(service, manufacturer),
        None => None,
    };
    match decoded {
        Some((model, reading)) => match metadata {
            Some(m) => deliver(model, reading, m),
            None => None,
        },
        None => None,
    }
}

} // verus!
