use power_grid::equilibrium::{Command, Mode};
use power_grid::settings::{
    consumer_config, create_config, get_sr_settings, parse_port, grid_topics, producer_config,
    prometheus_listen_address, value_subject, ADMIN_BROKERS, CITY_GROUP_ID, DEFAULT_BROKERS,
    SCHEMA_REGISTRY_URL, TRANSFORMER_GROUP_ID,
};

#[test]
fn subjects_end_in_value() {
    assert_eq!(value_subject("power-request"), "power-request-value");
    assert_eq!(value_subject("nuc-001-ht"), "nuc-001-ht-value");
    assert_eq!(value_subject(""), "-value");
}

#[test]
fn prometheus_listens_on_every_interface() {
    assert_eq!(prometheus_listen_address("9902"), "0.0.0.0:9902");
}

#[test]
fn consumer_settings() {
    let config = consumer_config(CITY_GROUP_ID, DEFAULT_BROKERS);
    assert_eq!(config.get("group.id"), Some("city-simple"));
    assert_eq!(config.get("bootstrap.servers"), Some("localhost:9092"));
    assert_eq!(config.get("enable.partition.eof"), Some("false"));
    assert_eq!(config.get("session.timeout.ms"), Some("6000"));
    assert_eq!(config.get("enable.auto.commit"), Some("true"));
    assert_eq!(config.get("message.timeout.ms"), None);
    assert_eq!(TRANSFORMER_GROUP_ID, "transfo-simple");
    let config = consumer_config(TRANSFORMER_GROUP_ID, "b:1");
    assert_eq!(config.get("group.id"), Some("transfo-simple"));
    assert_eq!(config.get("bootstrap.servers"), Some("b:1"));
}

#[test]
fn producer_settings() {
    let config = producer_config("b:1");
    assert_eq!(config.get("bootstrap.servers"), Some("b:1"));
    assert_eq!(config.get("message.timeout.ms"), Some("5000"));
    assert_eq!(config.get("group.id"), None);
}

#[test]
fn admin_settings() {
    let config = create_config();
    assert_eq!(config.get("bootstrap.servers"), Some("0.0.0.0:9092"));
    assert_eq!(config.get("group.id"), None);
    assert_eq!(ADMIN_BROKERS, "0.0.0.0:9092");
}

#[test]
fn grid_topic_list() {
    let topics: Vec<(String, i32, i32, String)> = grid_topics()
        .into_iter()
        .map(|t| (t.name, t.partitions, t.replication, t.max_message_bytes))
        .collect();
    assert_eq!(
        topics,
        vec![
            ("lyon-bt-v2".to_string(), 10, 2, "1234".to_string()),
            ("west-tht-v2".to_string(), 30, 2, "1234".to_string()),
            ("nuc-001-ht-v2".to_string(), 20, 2, "1234".to_string()),
            ("power-request-v2".to_string(), 1, 3, "1234".to_string()),
        ]
    );
}

#[test]
fn registry_urls() {
    assert_eq!(SCHEMA_REGISTRY_URL, "http://localhost:8181");
    let settings = format!("{:?}", get_sr_settings());
    assert!(settings.contains("\"http://localhost:8181\""));
    assert!(!settings.contains("8081"));
    assert!(settings.contains("authorization: None"));
    let expected = schema_registry_converter::async_impl::schema_registry::SrSettings::new(
        "http://localhost:8181".to_string(),
    );
    assert_eq!(settings, format!("{:?}", expected));
}

#[test]
fn balance_banner() {
    let command = Command::Balance {
        bootstrap_server: "k:9092".to_string(),
        mode: Mode::Spread,
        incremental: true,
        plan: false,
    };
    assert_eq!(
        command.banner(),
        "Balance Started\n bootstrap-server [k:9092]\n mode : [Spread]\n incremental : [true]\n plan : [false]"
    );
    let command = Command::Balance {
        bootstrap_server: "k".to_string(),
        mode: Mode::Size,
        incremental: false,
        plan: true,
    };
    assert_eq!(
        command.banner(),
        format!("Balance Started\n bootstrap-server [{}]\n mode : [{:?}]\n incremental : [{}]\n plan : [{}]", "k", Mode::Size, false, true)
    );
}

#[test]
fn supervise_banner() {
    let command = Command::Supervise { bootstrap_server: "k:9092".to_string(), incremental: false };
    assert_eq!(command.banner(), "Supervision Started\n bootstrap-server [k:9092]\n incremental : [false]");
}

#[test]
fn decommission_banner() {
    let command = Command::DecommissionBroker {
        bootstrap_server: "k:9092".to_string(),
        incremental: true,
        plan: true,
    };
    assert_eq!(
        command.banner(),
        "Decommission Started\n bootstrap-server [k:9092]\n incremental : [true]\n plan : [true]"
    );
}

#[test]
fn ports_read_as_sixteen_bit_decimals() {
    assert_eq!(parse_port("9902"), Some(9902));
    assert_eq!(parse_port("0"), Some(0));
    assert_eq!(parse_port("65535"), Some(65535));
    assert_eq!(parse_port("0080"), Some(80));
    assert_eq!(parse_port("65536"), None);
    assert_eq!(parse_port(""), None);
    assert_eq!(parse_port("+80"), None);
    assert_eq!(parse_port("-80"), None);
    assert_eq!(parse_port("80a"), None);
    assert_eq!(parse_port("99999999999999999999999"), None);
    for text in ["1", "22", "443", "9000", "9988", "70000", "x", " 1", "1 "] {
        assert_eq!(parse_port(text), text.parse::<u16>().ok(), "text {:?}", text);
    }
}
