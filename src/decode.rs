//! Decode dispatch: hands the payloads to the SwitchBot decoder and keeps
//! only results that name both a model and a reading.
use vstd::prelude::*;

use switchbot::model::SwitchBotData as D;

use crate::record::Reading;

verus! {

/// What `switchbot::protocol::decode_data` returns for a service-data payload
/// and an optional manufacturer-data payload: the model identifier byte, if a
/// model was recognised, and the reading, if one was decoded.
pub uninterp spec fn switchbot_decode(service: Seq<u8>, manufacturer: Option<Seq<u8>>) -> (
    Option<u8>,
    Option<Reading>,
);

/// The contents of an optional borrowed payload.
pub open spec fn payload_view(p: Option<&Vec<u8>>) -> Option<Seq<u8>> {
    match p {
        Some(v) => Some(v@),
        None => None,
    }
}

/// Relies on switchbot::protocol::decode_data (switchbot 0.1.2). The result
/// depends on the two payloads alone, and a service-data payload shorter than
/// three bytes is never recognised. The model is handed back as the identifier
/// byte that its enum discriminant holds.
#[verifier::external_body]
fn decode_data(service: &Vec<u8>, manufacturer: Option<&Vec<u8>>) -> (r: (Option<u8>, Option<Reading>))
    ensures
        r == switchbot_decode(service@, payload_view(manufacturer)),
        service@.len() < 3 ==> r.0 is None && r.1 is None,
{
    let (model, data) = switchbot::protocol::decode_data(service, manufacturer.map(|m| m.as_slice()));
    let reading = match data {
        Some(D::Bot { battery, state }) => Some(Reading::Bot { battery, state }),
        Some(D::Meter { battery, temperature, humidity }) => Some(Reading::Meter { battery, temperature, humidity }),
        Some(D::Plug { wifi_rssi, state, watts, overload }) => Some(Reading::Plug { wifi_rssi, state, watts, overload }),
        Some(D::Humidifier { state, humidity, auto_mode }) => Some(Reading::Humidifier { state, humidity, auto_mode }),
        None => None,
    };
    (model.map(|m| m as u8), reading)
}

/// A decoder result that names both a model and a reading.
pub open spec fn recognised(decoded: (Option<u8>, Option<Reading>)) -> Option<(u8, Reading)> {
    match decoded {
        (Some(model), Some(reading)) => Some((model, reading)),
        _ => None,
    }
}

/// Keeps a decoder result only where it names both a model and a reading.
pub fn recognise(decoded: (Option<u8>, Option<Reading>)) -> (r: Option<(u8, Reading)>)
    ensures
        r == recognised(decoded),
{
    match decoded {
        (Some(model), Some(reading)) => Some((model, reading)),
        _ => None,
    }
}

/// Decodes a service-data payload, with the manufacturer-data payload where
/// there is one. `None` means the payload belongs to no supported device.
pub fn dispatch(service: &Vec<u8>, manufacturer: Option<&Vec<u8>>) -> (r: Option<(u8, Reading)>)
    ensures
        r == recognised(switchbot_decode(service@, payload_view(manufacturer))),
        service@.len() < 3 ==> r is None,
{
    let decoded = decode_data(service, manufacturer);
    recognise(decoded)
}

} // verus!
