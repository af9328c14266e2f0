use std::time::Duration;
use tcp_client::config::{
    get_config as get_client_config, get_connect_timeout, get_receive_timeout,
    set_config as set_client_config, ClientConfig,
};
use tcp_client::configuration::{
    get_config, get_connect_sec, get_idle_sec, set_config, Configuration,
};

#[test]
fn configuration_defaults_to_thirty_seconds() {
    let config = Configuration::default();
    assert_eq!(config.connect_sec, 30);
    assert_eq!(config.idle_sec, 30);
}

#[test]
fn configuration_read_sees_the_latest_write() {
    let mut store = Configuration::default();
    set_config(&mut store, Configuration { connect_sec: 5, idle_sec: 7 });
    assert_eq!(get_connect_sec(&store), 5);
    assert_eq!(get_idle_sec(&store), 7);
    set_config(&mut store, Configuration { connect_sec: 11, idle_sec: 13 });
    assert_eq!(get_connect_sec(&store), 11);
    assert_eq!(get_idle_sec(&store), 13);
    let copy = get_config(&store);
    assert_eq!(copy.connect_sec, 11);
    assert_eq!(copy.idle_sec, 13);
}

#[test]
fn configuration_copy_does_not_follow_later_writes() {
    let mut store = Configuration::default();
    let copy = get_config(&store);
    set_config(&mut store, Configuration { connect_sec: 1, idle_sec: 2 });
    assert_eq!(copy.connect_sec, 30);
    assert_eq!(copy.idle_sec, 30);
    assert_eq!(get_idle_sec(&store), 2);
}

#[test]
fn configuration_takes_the_extremes() {
    let mut store = Configuration::default();
    set_config(&mut store, Configuration { connect_sec: 0, idle_sec: u64::MAX });
    assert_eq!(get_connect_sec(&store), 0);
    assert_eq!(get_idle_sec(&store), u64::MAX);
}

#[test]
fn client_config_defaults_to_ten_and_thirty_seconds() {
    let config = ClientConfig::default();
    assert_eq!(config.connect_timeout, Duration::from_secs(10));
    assert_eq!(config.receive_timeout, Duration::from_secs(30));
    assert_eq!(
        config,
        ClientConfig {
            connect_timeout: Duration::from_secs(10),
            receive_timeout: Duration::from_secs(30),
        }
    );
}

#[test]
fn client_config_read_sees_the_latest_write() {
    let mut store = ClientConfig::default();
    let written = ClientConfig {
        connect_timeout: Duration::from_millis(1500),
        receive_timeout: Duration::from_secs(3),
    };
    set_client_config(&mut store, written);
    assert_eq!(get_client_config(&store), written);
    assert_eq!(get_connect_timeout(&store), Duration::from_millis(1500));
    assert_eq!(get_receive_timeout(&store), Duration::from_secs(3));
    set_client_config(&mut store, ClientConfig::default());
    assert_eq!(get_connect_timeout(&store), Duration::from_secs(10));
    assert_eq!(get_receive_timeout(&store), Duration::from_secs(30));
}

#[test]
fn client_config_keeps_the_field_that_was_not_changed() {
    let config = ClientConfig { connect_timeout: Duration::from_secs(1), ..ClientConfig::default() };
    assert_eq!(config.connect_timeout, Duration::from_secs(1));
    assert_eq!(config.receive_timeout, Duration::from_secs(30));
}
