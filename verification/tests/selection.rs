use loadbalancer::config::{AppConfig, Config, ConfigError};
use loadbalancer::conn::{connect, ConnectionResolver, Connector, RoundRobinConnectionResolver};
use loadbalancer::consts::{
    DEFAULT_BUF_SIZE, INACTIVITY_TIMEOUT_MS, TARGET_CONNECT_RETRIES, TARGET_CONNECT_TIMEOUT_MS,
};
use loadbalancer::context::{AppContext, Cli};
use loadbalancer::handler::{listener_step, listeners, Listener, ListenerEvent, ListenerStep};
use loadbalancer::util::Retry;

fn hosts(names: &[&str]) -> Vec<String> {
    names.iter().map(|s| s.to_string()).collect()
}

fn app(name: &str, ports: &[u16], targets: &[&str]) -> AppConfig {
    AppConfig::new(name.to_string(), ports.to_vec(), hosts(targets))
}

#[test]
fn defaults_are_as_documented() {
    assert_eq!(TARGET_CONNECT_RETRIES, 3);
    assert_eq!(TARGET_CONNECT_TIMEOUT_MS, 3000);
    assert_eq!(INACTIVITY_TIMEOUT_MS, 60000);
    assert_eq!(DEFAULT_BUF_SIZE, 8192);
}

#[test]
fn app_config_getters_return_what_was_given() {
    let a = app("web", &[9000, 9001], &["10.0.0.1:80", "10.0.0.2:80"]);
    assert_eq!(a.name(), "web");
    assert_eq!(a.ports(), &vec![9000u16, 9001]);
    assert_eq!(a.targets(), &hosts(&["10.0.0.1:80", "10.0.0.2:80"]));
}

#[test]
fn config_keeps_the_order_of_apps() {
    let c = Config::new(vec![app("a", &[1], &["x:1"]), app("b", &[2], &["y:2"])]);
    assert_eq!(c.apps().len(), 2);
    assert_eq!(c.apps()[0].name(), "a");
    assert_eq!(c.apps()[1].name(), "b");
}

#[test]
fn validate_accepts_complete_apps_and_the_empty_configuration() {
    assert_eq!(Config::new(vec![]).validate(), Ok(()));
    let c = Config::new(vec![app("a", &[1], &["x:1"]), app("b", &[2, 3], &["y:2"])]);
    assert_eq!(c.validate(), Ok(()));
}

#[test]
fn validate_names_the_first_app_without_ports() {
    let c = Config::new(vec![app("a", &[1], &["x:1"]), app("b", &[], &["y:2"]), app("c", &[], &[])]);
    assert_eq!(c.validate(), Err(ConfigError::NoPorts(1)));
}

#[test]
fn validate_names_the_first_app_without_targets() {
    let c = Config::new(vec![app("a", &[1], &[]), app("b", &[], &["y:2"])]);
    assert_eq!(c.validate(), Err(ConfigError::NoTargets(0)));
}

#[test]
fn validate_reports_ports_before_targets() {
    let c = Config::new(vec![app("a", &[], &[])]);
    assert_eq!(c.validate(), Err(ConfigError::NoPorts(0)));
}

#[test]
fn listeners_are_every_app_port_pair_in_order() {
    let c = Config::new(vec![
        app("a", &[9000, 9001], &["x:1"]),
        app("b", &[], &["y:2"]),
        app("c", &[7], &["z:3"]),
    ]);
    assert_eq!(
        listeners(&c),
        vec![
            Listener { app: 0, port: 9000 },
            Listener { app: 0, port: 9001 },
            Listener { app: 2, port: 7 },
        ]
    );
}

#[test]
fn empty_configuration_has_no_listeners() {
    assert!(listeners(&Config::new(vec![])).is_empty());
}

#[test]
fn cli_timeouts_default_when_absent() {
    let cli = Cli { config_path: "{}".to_string(), target_connect_timeout_ms: None, inactivity_timeout_ms: None };
    assert_eq!(cli.target_connect_timeout(), 3000);
    assert_eq!(cli.inactivity_timeout(), 60000);
}

#[test]
fn cli_timeouts_can_be_overridden() {
    let cli = Cli {
        config_path: "lb.json".to_string(),
        target_connect_timeout_ms: Some(250),
        inactivity_timeout_ms: Some(0),
    };
    assert_eq!(cli.target_connect_timeout(), 250);
    assert_eq!(cli.inactivity_timeout(), 0);
}

#[test]
fn app_context_holds_cli_and_config() {
    let cli = Cli { config_path: "p".to_string(), target_connect_timeout_ms: Some(1), inactivity_timeout_ms: None };
    let ctx = AppContext::new(cli, Config::new(vec![app("a", &[1], &["x:1"])]));
    assert_eq!(ctx.cli.config_path, "p");
    assert_eq!(ctx.cli.target_connect_timeout(), 1);
    assert_eq!(ctx.config.apps().len(), 1);
}

#[test]
fn retry_hands_out_one_attempt_plus_retries() {
    let mut r = Retry::new(3);
    assert_eq!(r.next(false), Some(0));
    assert_eq!(r.next(true), Some(1));
    assert_eq!(r.next(true), Some(2));
    assert_eq!(r.next(true), Some(3));
    assert_eq!(r.next(true), None);
    assert_eq!(r.next(true), None);
}

#[test]
fn retry_stops_at_the_first_success() {
    let mut r = Retry::new(3);
    assert_eq!(r.next(true), Some(0));
    assert_eq!(r.next(true), Some(1));
    assert_eq!(r.next(false), None);
    assert_eq!(r.next(true), None);
}

#[test]
fn retry_with_no_retries_makes_one_attempt() {
    let mut r = Retry::new(0);
    assert_eq!(r.next(true), Some(0));
    assert_eq!(r.next(true), None);
}

#[test]
fn round_robin_walks_the_hosts_and_starts_over() {
    let mut r = RoundRobinConnectionResolver::new(hosts(&["a", "b", "c"]));
    assert_eq!(r.len(), 3);
    let picks: Vec<usize> = (0..7).map(|_| r.connect_next()).collect();
    assert_eq!(picks, vec![0, 1, 2, 0, 1, 2, 0]);
    assert_eq!(r.host(1), "b");
}

#[test]
fn connection_resolver_uses_round_robin() {
    let mut r = ConnectionResolver::RoundRobin(RoundRobinConnectionResolver::new(hosts(&["a", "b"])));
    assert_eq!(r.connect_next(), 0);
    assert_eq!(r.connect_next(), 1);
    assert_eq!(r.connect_next(), 0);
    assert_eq!(r.host(0), "a");
}

#[test]
fn all_targets_down_gives_four_dials() {
    let mut c = Connector::new(hosts(&["t1:1", "t2:2"]), 3);
    let mut dialed: Vec<String> = Vec::new();
    let mut failed = false;
    while let Some(i) = c.next_dial(failed) {
        dialed.push(c.host(i).clone());
        failed = true;
    }
    assert_eq!(dialed, hosts(&["t1:1", "t2:2", "t1:1", "t2:2"]));
    assert_eq!(c.next_dial(true), None);
}

#[test]
fn connector_stops_after_a_successful_dial() {
    let mut c = Connector::new(hosts(&["t1:1", "t2:2", "t3:3"]), 3);
    assert_eq!(c.next_dial(false), Some(0));
    assert_eq!(c.next_dial(true), Some(1));
    assert_eq!(c.next_dial(false), None);
    assert_eq!(c.next_dial(true), None);
}

#[test]
fn single_target_is_dialed_again_on_failure() {
    let mut c = Connector::new(hosts(&["only:1"]), 2);
    assert_eq!(c.next_dial(false), Some(0));
    assert_eq!(c.next_dial(true), Some(0));
    assert_eq!(c.next_dial(true), Some(0));
    assert_eq!(c.next_dial(true), None);
}

fn walking_order(c: &mut Connector, n: usize) -> Vec<String> {
    (0..n).map(|i| c.host(i).clone()).collect()
}

#[test]
fn connect_walks_a_permutation_of_the_targets() {
    let names = ["a:1", "b:2", "c:3", "d:4", "e:5", "f:6", "g:7", "h:8"];
    let a = app("web", &[9000], &names);
    for _ in 0..20 {
        let mut c = connect(&a);
        let mut order = walking_order(&mut c, names.len());
        order.sort();
        assert_eq!(order, hosts(&names));
    }
    // the configuration itself is left as it was
    assert_eq!(a.targets(), &hosts(&names));
}

#[test]
fn connect_shuffles_the_targets() {
    let names = ["a:1", "b:2", "c:3", "d:4", "e:5", "f:6", "g:7", "h:8"];
    let a = app("web", &[9000], &names);
    let mut moved = false;
    for _ in 0..40 {
        let mut c = connect(&a);
        if walking_order(&mut c, names.len()) != hosts(&names) {
            moved = true;
        }
    }
    assert!(moved);
}

#[test]
fn connect_allows_the_default_retries() {
    let a = app("web", &[9000], &["t1:1", "t2:2"]);
    let mut c = connect(&a);
    let mut dials = 0;
    let mut failed = false;
    while let Some(i) = c.next_dial(failed) {
        assert!(i < 2);
        assert_eq!(i, dials % 2);
        dials += 1;
        failed = true;
    }
    assert_eq!(dials, 1 + TARGET_CONNECT_RETRIES);
}

#[test]
fn listener_stops_only_when_the_port_cannot_be_bound() {
    assert_eq!(listener_step(ListenerEvent::Bound), ListenerStep::Accept);
    assert_eq!(listener_step(ListenerEvent::BindFailed), ListenerStep::Stop);
    assert_eq!(listener_step(ListenerEvent::Accepted), ListenerStep::Spawn);
    assert_eq!(listener_step(ListenerEvent::AcceptFailed), ListenerStep::Accept);
}
