use ztunnel::config::{Config, ConfigSource, ProxyMode};
use ztunnel::net::{IpAddr, SocketAddr};
use ztunnel::test_helpers::app::{
    local_config, ReadyPoll, ReadyStep, TestApp, Ztunnel, READY_PAUSE, READY_TRIES,
    SOCKS5_COMMAND_REPLY, SOCKS5_GREETING_REPLY,
};

fn app() -> TestApp {
    TestApp {
        admin_address: SocketAddr { ip: IpAddr::V4(0), port: 15000 },
        readiness_address: SocketAddr { ip: IpAddr::V4(0), port: 15021 },
        socks5_address: SocketAddr { ip: IpAddr::V6(0), port: 15080 },
    }
}

fn config() -> Config {
    Config {
        inbound_plaintext_addr: SocketAddr { ip: IpAddr::V4(0), port: 15006 },
        inpod_enabled: true,
        illegal_ports: vec![15006],
        proxy_mode: ProxyMode::Shared,
        local_ip: None,
        network: "net".to_string(),
        self_termination_deadline: 9,
        local_node: Some("elsewhere".to_string()),
        fake_ca: false,
        xds_address: Some("https://istiod".to_string()),
        local_xds_config: Some(ConfigSource::File("config.yaml".to_string())),
    }
}

#[test]
fn requests_go_to_localhost() {
    let r = app().admin_request("metrics");
    assert_eq!(r.uri, "http://localhost:15000/metrics");
    assert_eq!(
        r.headers,
        vec![("content-type".to_string(), "application/json".to_string())]
    );
    let r = app().readiness_request();
    assert_eq!(r.uri, "http://localhost:15021/healthz/ready");
    assert!(r.headers.is_empty());
}

#[test]
fn only_status_200_is_ready() {
    assert_eq!(TestApp::readiness(200), Ok(()));
    assert_eq!(
        TestApp::readiness(503),
        Err("non-200 status code from readiness request: received 503 Service Unavailable".to_string())
    );
    assert_eq!(
        TestApp::readiness(299),
        Err("non-200 status code from readiness request: received 299 <unknown status code>".to_string())
    );
    assert_eq!(
        TestApp::readiness_of(404, "lost"),
        Err("non-200 status code from readiness request: received lost".to_string())
    );
    assert_eq!(TestApp::readiness_of(200, "fine"), Ok(()));
}

#[test]
fn a_proxy_that_never_is_ready_is_given_up() {
    let mut poll = ReadyPoll::new();
    for i in 1..READY_TRIES {
        assert_eq!(poll.answered(Err(format!("{i}"))), ReadyStep::Retry);
    }
    assert_eq!(
        poll.answered(Err("last".to_string())),
        ReadyStep::GiveUp("last".to_string())
    );
    assert_eq!((READY_TRIES, READY_PAUSE), (200, 10_000_000));
}

#[test]
fn a_proxy_that_is_ready_is_not_asked_again() {
    let mut poll = ReadyPoll::new();
    assert_eq!(poll.answered(Err("early".to_string())), ReadyStep::Retry);
    assert_eq!(poll.answered(Ok(())), ReadyStep::Ready);
    assert_eq!(poll.failures, 1);
}

#[test]
fn socks5_asks_for_the_address() {
    let to = SocketAddr { ip: IpAddr::from_octets(127, 0, 0, 2), port: 8080 };
    let dialog = app().socks5_connect(to);
    assert_eq!(
        dialog.proxy,
        SocketAddr { ip: IpAddr::from_octets(127, 0, 0, 1), port: 15080 }
    );
    assert_eq!(dialog.greeting, vec![5, 1, 0]);
    assert_eq!(dialog.command, vec![5, 1, 0, 1, 127, 0, 0, 2, 0x1f, 0x90]);
    assert_eq!((SOCKS5_GREETING_REPLY, SOCKS5_COMMAND_REPLY), (2, 10));
    let to = SocketAddr { ip: IpAddr::V6(1), port: 1 };
    let command = app().socks5_connect(to).command;
    assert_eq!(command.len(), 22);
    assert_eq!(command[..4], [5, 1, 0, 4]);
    assert_eq!(command[19..], [1, 0, 1]);
}

#[test]
fn socks5_sends_mapped_addresses_as_four_octets() {
    let to = SocketAddr { ip: IpAddr::V6(0xffff_7f00_0002), port: 1 };
    assert_eq!(app().socks5_connect(to).command, vec![5, 1, 0, 4, 127, 0, 0, 2, 0, 1]);
}

#[test]
fn a_proxy_under_test_is_on_its_own() {
    let cfg = Ztunnel::new(config()).cfg;
    assert_eq!(cfg.xds_address, None);
    assert!(cfg.fake_ca);
    assert_eq!(cfg.local_xds_config, None);
    assert_eq!(cfg.local_node.as_deref(), Some("local"));
    assert_eq!(cfg.network, "net");
    assert_eq!(cfg.illegal_ports, vec![15006]);
    let cfg = local_config(config(), Some(ConfigSource::Static(vec![1])));
    assert_eq!(cfg.local_xds_config, Some(ConfigSource::Static(vec![1])));
    assert_eq!(cfg.local_node.as_deref(), Some("local"));
}
