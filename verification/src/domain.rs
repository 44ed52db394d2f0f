//! The two records that travel on the grid's topics, and what a transformer
//! does to an event.

use vstd::prelude::*;
use vstd::string::*;

use crate::decimal::{decimal, format_volume};

verus! {

/// Avro schema of [`PowerEvent`], as registered with the schema registry.
pub const POWER_EVENT_SCHEMA: &'static str = r#"
        {
            "type": "record",
            "name": "PowerEvent",
            "fields": [
                {"name": "origin", "type": "string"},
                {"name": "volume", "type": "string"},
                {"name": "ts", "type": "string"},
                {"name": "power_type", "type": "string"}
            ]
        }
    "#;

/// Name under which [`POWER_EVENT_SCHEMA`] is registered.
pub const POWER_EVENT_SCHEMA_NAME: &'static str = "io.polytech.PowerEvent";

/// Avro schema of [`PowerRequest`], as registered with the schema registry.
pub const POWER_REQUEST_SCHEMA: &'static str = r#"
        {
            "type": "record",
            "name": "PowerRequest",
            "fields": [
                {"name": "origin", "type": "string"},
                {"name": "volume", "type": "string"}
            ]
        }
    "#;

/// Name under which [`POWER_REQUEST_SCHEMA`] is registered.
pub const POWER_REQUEST_SCHEMA_NAME: &'static str = "io.polytech.PowerRequest";

/// Power that leaves a producer or a transformer: who sent it, how much (a
/// decimal text), when, and at which voltage class (`HT`, `THT`, `BT`, ...).
#[derive(Clone)]
pub struct PowerEvent {
    pub origin: String,
    pub volume: String,
    pub ts: String,
    pub power_type: String,
}

pub struct PowerEventView {
    pub origin: Seq<char>,
    pub volume: Seq<char>,
    pub ts: Seq<char>,
    pub power_type: Seq<char>,
}

impl View for PowerEvent {
    type V = PowerEventView;

    open spec fn view(&self) -> PowerEventView {
        PowerEventView {
            origin: self.origin@,
            volume: self.volume@,
            ts: self.ts@,
            power_type: self.power_type@,
        }
    }
}

/// A city's request for power: who asks, and how much (a decimal text).
pub struct PowerRequest {
    pub origin: String,
    pub volume: String,
}

pub struct PowerRequestView {
    pub origin: Seq<char>,
    pub volume: Seq<char>,
}

impl View for PowerRequest {
    type V = PowerRequestView;

    open spec fn view(&self) -> PowerRequestView {
        PowerRequestView { origin: self.origin@, volume: self.volume@ }
    }
}

/// The request a city sends for a need of `need`.
pub open spec fn spec_request_for(city: Seq<char>, need: nat) -> PowerRequestView {
    PowerRequestView { origin: city, volume: decimal(need) }
}

/// What a transformer makes of an event: the same event at another voltage.
pub open spec fn spec_alter_current_type(event: PowerEventView, output_power: Seq<char>) -> PowerEventView {
    PowerEventView {
        origin: event.origin,
        volume: event.volume,
        ts: event.ts,
        power_type: output_power,
    }
}

impl PowerEvent {
    /// The Avro schema of power events.
    pub fn get_schema() -> (schema: &'static str)
        ensures
            schema@ == POWER_EVENT_SCHEMA@,
    {
        POWER_EVENT_SCHEMA
    }
}

impl PowerRequest {
    /// The Avro schema of power requests.
    pub fn get_schema() -> (schema: &'static str)
        ensures
            schema@ == POWER_REQUEST_SCHEMA@,
    {
        POWER_REQUEST_SCHEMA
    }

    /// The request of `city_name` for `need` units, the volume written in
    /// decimal.
    pub fn for_need(city_name: &str, need: u32) -> (request: PowerRequest)
        ensures
            request@ == spec_request_for(city_name@, need as nat),
    {
        PowerRequest { origin: String::from_str(city_name), volume: format_volume(need as usize) }
    }
}

/// Relabels an event with the voltage class that a transformer puts out;
/// everything else passes through unchanged.
pub fn alter_current_type(event: PowerEvent, output_power: &str) -> (altered: PowerEvent)
    ensures
        altered@ == spec_alter_current_type(event@, output_power@),
{
    PowerEvent {
        origin: event.origin,
        volume: event.volume,
        ts: event.ts,
        power_type: String::from_str(output_power),
    }
}

/// Along a line of transformers only the last one's voltage class is seen,
/// and origin, volume and timestamp arrive as they were sent.
pub proof fn lemma_transformer_line(event: PowerEventView, first: Seq<char>, second: Seq<char>)
    ensures
        spec_alter_current_type(spec_alter_current_type(event, first), second)
            == spec_alter_current_type(event, second),
        spec_alter_current_type(event, first).origin == event.origin,
        spec_alter_current_type(event, first).volume == event.volume,
        spec_alter_current_type(event, first).ts == event.ts,
        spec_alter_current_type(event, first).power_type == first,
{
}

} // verus!
