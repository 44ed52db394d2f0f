//! The nuclear plant: it produces what the last request asked for, and
//! announces its production on its own topic.

use vstd::prelude::*;
use vstd::string::*;

use crate::decimal::{all_digits, decimal, is_digit, format_volume, lemma_volume_round_trip, parse_volume, spec_parse_volume};
use crate::domain::{spec_alter_current_type, spec_request_for, PowerEvent, PowerEventView, PowerRequest, PowerRequestView};

verus! {

/// Production of a plant that has not been asked for anything yet.
pub const INITIAL_PRODUCTION: usize = 1;

/// A plant: its name and its current production.
pub struct PowerPlant {
    pub name: String,
    pub production: usize,
}

pub struct PowerPlantView {
    pub name: Seq<char>,
    pub production: usize,
}

impl View for PowerPlant {
    type V = PowerPlantView;

    open spec fn view(&self) -> PowerPlantView {
        PowerPlantView { name: self.name@, production: self.production }
    }
}

/// A request sets the production to the volume it asks for; one whose volume
/// does not read as a number leaves the plant as it was.
pub open spec fn spec_apply_request(plant: PowerPlantView, request: PowerRequestView) -> PowerPlantView {
    match spec_parse_volume(request.volume) {
        Some(volume) => PowerPlantView { name: plant.name, production: volume },
        None => plant,
    }
}

/// The event a plant announces at time `ts`: its production at high voltage.
pub open spec fn spec_plant_event(plant: PowerPlantView, ts: Seq<char>) -> PowerEventView {
    PowerEventView {
        origin: plant.name,
        volume: decimal(plant.production as nat),
        ts: ts,
        power_type: "HT"@,
    }
}

/// The text of `s` as `{:?}` writes it: quoted, with escapes.
pub uninterp spec fn str_debug(s: Seq<char>) -> Seq<char>;

/// `format!("{:?}", s)` for a `str`, the `Debug` form of the text. Its result
/// is named, not spelled out: the escaping rules of std take pages.
#[verifier::external_body]
fn debug_text(s: &str) -> (text: String)
    ensures
        text@ == str_debug(s@),
{
    format!("{:?}", s)
}

/// `s[i]` and `s[i + 1]` are digits.
pub open spec fn two_digits_at(s: Seq<char>, i: int) -> bool {
    0 <= i && i + 2 <= s.len() && is_digit(s[i]) && is_digit(s[i + 1])
}

/// A year as `{:?}` of a chrono date writes it: four digits for the years 0
/// to 9999, otherwise a sign and at least four digits.
pub open spec fn is_debug_year(y: Seq<char>) -> bool {
    ||| y.len() == 4 && all_digits(y)
    ||| y.len() >= 5 && (y[0] == '+' || y[0] == '-') && all_digits(y.drop_first())
}

/// A chrono date as `{:?}` writes it: `year-MM-DD`.
pub open spec fn is_debug_date(d: Seq<char>) -> bool {
    &&& d.len() >= 10
    &&& is_debug_year(d.subrange(0, d.len() - 6))
    &&& d[d.len() - 6] == '-'
    &&& two_digits_at(d, d.len() - 5)
    &&& d[d.len() - 3] == '-'
    &&& two_digits_at(d, d.len() - 2)
}

/// A chrono time of day as `{:?}` writes it: `HH:MM:SS`, then nothing or a
/// point and three, six or nine digits of the second's fraction.
pub open spec fn is_debug_time(t: Seq<char>) -> bool {
    &&& t.len() >= 8
    &&& two_digits_at(t, 0)
    &&& t[2] == ':'
    &&& two_digits_at(t, 3)
    &&& t[5] == ':'
    &&& two_digits_at(t, 6)
    &&& ({
        let fraction = t.skip(8);
        ||| fraction.len() == 0
        ||| (fraction.len() == 4 || fraction.len() == 7 || fraction.len() == 10) && fraction[0]
            == '.' && all_digits(fraction.drop_first())
    })
}

/// A UTC instant as `{:?}` of a `chrono::DateTime<Utc>` writes it: date,
/// `T`, time of day, `Z`.
pub open spec fn is_utc_debug_text(s: Seq<char>) -> bool {
    exists|date: Seq<char>, time: Seq<char>|
        #![trigger is_debug_date(date), is_debug_time(time)]
        s == date + seq!['T'] + time + seq!['Z'] && is_debug_date(date) && is_debug_time(time)
}

/// `chrono::Utc::now()` written with `{:?}`: the date, `T`, the time of day
/// with its fraction of a second, then the offset, which `Utc` writes as `Z`.
/// Which instant it shows depends on the clock and is not claimed.
#[verifier::external_body]
fn now_timestamp() -> (ts: String)
    ensures
        is_utc_debug_text(ts@),
        ts@.len() > 0,
        ts@.last() == 'Z',
{
    format!("{:?}", chrono::Utc::now())
}

impl PowerPlant {
    /// A plant called `name`, producing [`INITIAL_PRODUCTION`].
    pub fn new(name: &str) -> (plant: PowerPlant)
        ensures
            plant@ == (PowerPlantView { name: name@, production: INITIAL_PRODUCTION }),
    {
        PowerPlant { name: String::from_str(name), production: INITIAL_PRODUCTION }
    }

    /// Topic of the plant's high-voltage output: its name followed by `-ht`.
    pub fn output_topic(&self) -> (topic: String)
        ensures
            topic@ == self.name@ + "-ht"@,
    {
        let mut topic = self.name.clone();
        topic.append("-ht");
        topic
    }

    /// Key of the plant's messages: `Key ` followed by the `Debug` form of
    /// its name.
    pub fn message_key(&self) -> (key: String)
        ensures
            key@ == "Key "@ + str_debug(self.name@),
    {
        let quoted = debug_text(self.name.as_str());
        let key = String::from_str("Key ");
        key.concat(quoted.as_str())
    }

    /// Takes a request into account. Returns the new production, or `None`
    /// (the plant unchanged) when the requested volume does not read as a
    /// `usize`.
    pub fn apply_request(&mut self, request: &PowerRequest) -> (applied: Option<usize>)
        ensures
            applied == spec_parse_volume(request.volume@),
            final(self)@ == spec_apply_request(old(self)@, request@),
    {
        let volume = parse_volume(request.volume.as_str());
        match volume {
            Some(v) => {
                self.production = v;
            },
            None => {},
        }
        volume
    }

    /// The event the plant announces at time `ts`.
    pub fn event_at(&self, ts: &str) -> (event: PowerEvent)
        ensures
            event@ == spec_plant_event(self@, ts@),
            event.origin@ == self.name@,
            spec_parse_volume(event.volume@) == Some(self.production),
            event.ts@ == ts@,
            event.power_type@ == "HT"@,
    {
        proof {
            lemma_plant_event_reads_back(self@, ts@);
            lemma_plant_events_are_high_voltage(self@, ts@);
        }
        PowerEvent {
            origin: self.name.clone(),
            volume: format_volume(self.production),
            ts: String::from_str(ts),
            power_type: String::from_str("HT"),
        }
    }

    /// The event the plant announces now, stamped with the current time in
    /// UTC, as `{:?}` of a chrono instant writes it.
    pub fn current_event(&self) -> (event: PowerEvent)
        ensures
            event@ == spec_plant_event(self@, event.ts@),
            event.origin@ == self.name@,
            spec_parse_volume(event.volume@) == Some(self.production),
            event.power_type@ == "HT"@,
            is_utc_debug_text(event.ts@),
            event.ts@.len() > 0,
            event.ts@.last() == 'Z',
    {
        let ts = now_timestamp();
        self.event_at(ts.as_str())
    }
}

/// What the plant announces after a city's request is exactly the volume the
/// city asked for.
pub proof fn lemma_plant_announces_requested_need(
    plant: PowerPlantView,
    city: Seq<char>,
    need: usize,
    ts: Seq<char>,
)
    ensures
        spec_plant_event(spec_apply_request(plant, spec_request_for(city, need as nat)), ts).volume
            == spec_request_for(city, need as nat).volume,
        spec_apply_request(plant, spec_request_for(city, need as nat)).production == need,
{
    lemma_volume_round_trip(need);
}

/// Down the line from the plant to a city, through two transformers, the
/// city receives the plant's power at the last transformer's voltage, in the
/// very volume that it asked for.
pub proof fn lemma_requested_power_reaches_city(
    plant: PowerPlantView,
    city: Seq<char>,
    need: usize,
    ts: Seq<char>,
    first_power: Seq<char>,
    second_power: Seq<char>,
)
    ensures
        ({
            let request = spec_request_for(city, need as nat);
            let producing = spec_apply_request(plant, request);
            let delivered = spec_alter_current_type(
                spec_alter_current_type(spec_plant_event(producing, ts), first_power),
                second_power,
            );
            &&& delivered.origin == plant.name
            &&& delivered.volume == request.volume
            &&& delivered.ts == ts
            &&& delivered.power_type == second_power
        }),
{
    lemma_volume_round_trip(need);
}

/// Whatever it produces, a plant announces its power at high voltage, under
/// its own name.
pub proof fn lemma_plant_events_are_high_voltage(plant: PowerPlantView, ts: Seq<char>)
    ensures
        spec_plant_event(plant, ts).power_type == "HT"@,
        spec_plant_event(plant, ts).origin == plant.name,
        spec_plant_event(plant, ts).ts == ts,
{
}

/// The volume a plant announces reads back as its production.
pub proof fn lemma_plant_event_reads_back(plant: PowerPlantView, ts: Seq<char>)
    ensures
        spec_parse_volume(spec_plant_event(plant, ts).volume) == Some(plant.production),
{
    lemma_volume_round_trip(plant.production);
}

/// Only the last readable request counts: a second readable request overrides
/// the first, and an unreadable one changes nothing.
pub proof fn lemma_last_request_wins(
    plant: PowerPlantView,
    first: PowerRequestView,
    second: PowerRequestView,
)
    ensures
        spec_parse_volume(second.volume) is Some ==> spec_apply_request(
            spec_apply_request(plant, first),
            second,
        ) == spec_apply_request(plant, second),
        spec_parse_volume(second.volume) is None ==> spec_apply_request(
            spec_apply_request(plant, first),
            second,
        ) == spec_apply_request(plant, first),
        spec_apply_request(plant, first).name == plant.name,
{
}

} // verus!
