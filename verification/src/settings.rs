//! Where the grid's processes connect, and how they name their topics,
//! subjects and client settings.

use rdkafka::config::ClientConfig;
use schema_registry_converter::async_impl::schema_registry::SrSettings;
use vstd::prelude::*;
use vstd::string::*;

use crate::decimal::{all_digits, digits_after_sign, digits_value, is_digit, parse_volume};

verus! {

/// Schema registry shared by every process of the grid: cities, the plant
/// and the transformers alike. A transformer decodes what the plant encoded
/// and a city's line carries what the transformers encoded, so all of them
/// must find their schemas in this one registry.
pub const SCHEMA_REGISTRY_URL: &'static str = "http://localhost:8181";

/// Brokers that cities and transformers connect to.
pub const DEFAULT_BROKERS: &'static str = "localhost:9092";

/// Brokers that the topic administration connects to.
pub const ADMIN_BROKERS: &'static str = "0.0.0.0:9092";

/// Consumer group of the cities.
pub const CITY_GROUP_ID: &'static str = "city-simple";

/// Consumer group of the plant's request listener and of the transformers.
pub const TRANSFORMER_GROUP_ID: &'static str = "transfo-simple";

#[verifier::external_type_specification]
#[verifier::external_body]
pub struct ExSrSettings(SrSettings);

/// The registry URLs that settings hold, in the order in which calls try
/// them.
pub uninterp spec fn registry_urls(settings: SrSettings) -> Seq<Seq<char>>;

/// Whether settings send an authorization (a token or basic credentials)
/// with their calls.
pub uninterp spec fn registry_authorized(settings: SrSettings) -> bool;

/// Whether the HTTP client of settings is the one `reqwest::Client::new()`
/// builds: reqwest's defaults, with no timeout, no headers of its own and
/// only the proxies that the environment names.
pub uninterp spec fn registry_default_client(settings: SrSettings) -> bool;

/// `SrSettings::new(url)`: settings whose only registry URL is `url`, sending
/// no authorization, with the default HTTP client of `reqwest::Client::new()`.
#[verifier::external_body]
fn sr_settings_new(url: String) -> (settings: SrSettings)
    ensures
        registry_urls(settings) == seq![url@],
        !registry_authorized(settings),
        registry_default_client(settings),
{
    SrSettings::new(url)
}

/// Settings of the grid's schema registry: the one at
/// [`SCHEMA_REGISTRY_URL`] and no other, without authorization, through the
/// default HTTP client.
pub fn get_sr_settings() -> (settings: SrSettings)
    ensures
        registry_urls(settings) == seq![SCHEMA_REGISTRY_URL@],
        !registry_authorized(settings),
        registry_default_client(settings),
{
    sr_settings_new(String::from_str(SCHEMA_REGISTRY_URL))
}

/// Subject under which the values of `topic` are registered: the topic name
/// followed by `-value`.
pub fn value_subject(topic: &str) -> (subject: String)
    ensures
        subject@ == topic@ + "-value"@,
{
    let subject = String::from_str(topic);
    subject.concat("-value")
}

/// How a port number reads: one or more decimal digits and nothing else
/// (no sign), denoting a value that fits in 16 bits.
pub open spec fn spec_parse_port(s: Seq<char>) -> Option<u16> {
    if s.len() > 0 && all_digits(s) && digits_value(s) <= u16::MAX {
        Some(digits_value(s) as u16)
    } else {
        None
    }
}

/// Reads the port the Prometheus exporter is to listen on; `None` where the
/// text is no port number.
pub fn parse_port(s: &str) -> (port: Option<u16>)
    ensures
        port == spec_parse_port(s@),
{
    let len = s.unicode_len();
    if len > 0 && s.get_char(0) == '+' {
        assert(!is_digit(s@[0]));
        return None;
    }
    assert(len > 0 ==> s@[0] != '+');
    assert(digits_after_sign(s@) == s@);
    match parse_volume(s) {
        Some(v) => {
            if v <= 65535 {
                Some(v as u16)
            } else {
                None
            }
        },
        None => None,
    }
}

/// Address on which the Prometheus exporter listens: every interface, on
/// `port`.
pub fn prometheus_listen_address(port: &str) -> (address: String)
    ensures
        address@ == "0.0.0.0:"@ + port@,
{
    let address = String::from_str("0.0.0.0:");
    address.concat(port)
}

#[verifier::external_type_specification]
#[verifier::external_body]
pub struct ExClientConfig(ClientConfig);

/// The settings that a client configuration holds, from key to value.
pub uninterp spec fn client_settings(config: ClientConfig) -> Map<Seq<char>, Seq<char>>;

/// `ClientConfig::new()`: a configuration that holds no setting. Its log
/// level, which it takes from the `log` crate's global level, is not modeled.
#[verifier::external_body]
fn client_config_new() -> (fresh: ClientConfig)
    ensures
        client_settings(fresh) =~= Map::empty(),
{
    ClientConfig::new()
}

/// `ClientConfig::set(key, value)`: sets `key` to `value`, replacing any
/// value it had; the other settings stay.
#[verifier::external_body]
fn client_config_set(config: ClientConfig, key: &str, value: &str) -> (updated: ClientConfig)
    ensures
        client_settings(updated) == client_settings(config).insert(key@, value@),
{
    let mut updated = config;
    updated.set(key, value);
    updated
}

/// Configuration of a consumer in group `group_id`: no end-of-partition
/// events, a six second session timeout, offsets committed automatically.
pub fn consumer_config(group_id: &str, brokers: &str) -> (config: ClientConfig)
    ensures
        client_settings(config) == map![
            "group.id"@ => group_id@,
            "bootstrap.servers"@ => brokers@,
            "enable.partition.eof"@ => "false"@,
            "session.timeout.ms"@ => "6000"@,
            "enable.auto.commit"@ => "true"@,
        ],
{
    let mut config = client_config_new();
    config = client_config_set(config, "group.id", group_id);
    config = client_config_set(config, "bootstrap.servers", brokers);
    config = client_config_set(config, "enable.partition.eof", "false");
    config = client_config_set(config, "session.timeout.ms", "6000");
    config = client_config_set(config, "enable.auto.commit", "true");
    config
}

/// Configuration of a producer: a five second message timeout.
pub fn producer_config(brokers: &str) -> (config: ClientConfig)
    ensures
        client_settings(config) == map![
            "bootstrap.servers"@ => brokers@,
            "message.timeout.ms"@ => "5000"@,
        ],
{
    let mut config = client_config_new();
    config = client_config_set(config, "bootstrap.servers", brokers);
    config = client_config_set(config, "message.timeout.ms", "5000");
    config
}

/// Configuration of the client that creates the grid's topics.
pub fn create_config() -> (config: ClientConfig)
    ensures
        client_settings(config) == map!["bootstrap.servers"@ => ADMIN_BROKERS@],
{
    let mut config = client_config_new();
    config = client_config_set(config, "bootstrap.servers", ADMIN_BROKERS);
    config
}

/// A topic to create: name, partition count, replication factor and the
/// largest message it accepts (as text, the way the broker takes it).
pub struct TopicSpec {
    pub name: String,
    pub partitions: i32,
    pub replication: i32,
    pub max_message_bytes: String,
}

pub struct TopicSpecView {
    pub name: Seq<char>,
    pub partitions: i32,
    pub replication: i32,
    pub max_message_bytes: Seq<char>,
}

impl View for TopicSpec {
    type V = TopicSpecView;

    open spec fn view(&self) -> TopicSpecView {
        TopicSpecView {
            name: self.name@,
            partitions: self.partitions,
            replication: self.replication,
            max_message_bytes: self.max_message_bytes@,
        }
    }
}

pub open spec fn topic_view(name: Seq<char>, partitions: i32, replication: i32) -> TopicSpecView {
    TopicSpecView { name, partitions, replication, max_message_bytes: "1234"@ }
}

fn topic(name: &str, partitions: i32, replication: i32) -> (t: TopicSpec)
    ensures
        t@ == topic_view(name@, partitions, replication),
{
    TopicSpec {
        name: String::from_str(name),
        partitions,
        replication,
        max_message_bytes: String::from_str("1234"),
    }
}

/// The topics of the grid: the city line, the west line, the plant's output
/// and the requests.
pub fn grid_topics() -> (topics: Vec<TopicSpec>)
    ensures
        topics@.map_values(|t: TopicSpec| t@) == seq![
            topic_view("lyon-bt-v2"@, 10, 2),
            topic_view("west-tht-v2"@, 30, 2),
            topic_view("nuc-001-ht-v2"@, 20, 2),
            topic_view("power-request-v2"@, 1, 3),
        ],
{
    let mut topics: Vec<TopicSpec> = Vec::new();
    topics.push(topic("lyon-bt-v2", 10, 2));
    topics.push(topic("west-tht-v2", 30, 2));
    topics.push(topic("nuc-001-ht-v2", 20, 2));
    topics.push(topic("power-request-v2", 1, 3));
    assert(topics@.map_values(|t: TopicSpec| t@) =~= seq![
        topic_view("lyon-bt-v2"@, 10, 2),
        topic_view("west-tht-v2"@, 30, 2),
        topic_view("nuc-001-ht-v2"@, 20, 2),
        topic_view("power-request-v2"@, 1, 3),
    ]);
    topics
}

} // verus!
