//! Encrypted channels, sealed bodies, the echo service and the cluster inside one process.

use infovulcan::echo::EchoService;
use infovulcan::loopback::{make_request, raft_config, wait_step, Cluster, Wait};
use infovulcan::pqc::{KyberCodec, Opened};
use infovulcan::status::Code;
use infovulcan::tls::{dial_address, settings, to_https};

#[test]
fn to_https_only_rewrites_http_scheme() {
    assert_eq!(to_https("http://db:50051"), "https://db:50051");
    assert_eq!(to_https("https://db:50051"), "https://db:50051");
    // No scheme prefix → left untouched.
    assert_eq!(to_https("db:50051"), "db:50051");
}

#[test]
fn rewriting_the_scheme_twice_is_rewriting_it_once() {
    for addr in ["http://http://x", "http:/", "", "httpx://a"] {
        assert_eq!(to_https(&to_https(addr)), to_https(addr));
    }
}

#[test]
fn tls_enabled_is_false_without_env() {
    assert!(!infovulcan::tls::enabled(false, false, false));
    assert!(!infovulcan::tls::enabled(true, true, false));
    assert!(infovulcan::tls::enabled(true, true, true));
}

#[test]
fn env_configs_are_none_when_disabled() {
    assert!(settings(None, None, None, None).is_none());
    let some = || Some("x".to_string());
    assert!(settings(some(), some(), None, some()).is_none());
}

#[test]
fn settings_name_the_files_and_the_domain() {
    let set = settings(
        Some("ca".to_string()),
        Some("cert".to_string()),
        Some("key".to_string()),
        None,
    )
    .unwrap();
    assert_eq!(set.ca_path, "ca");
    assert_eq!(set.cert_path, "cert");
    assert_eq!(set.key_path, "key");
    assert_eq!(set.domain, "localhost");
    assert_eq!(dial_address("http://a", true), "https://a");
    assert_eq!(dial_address("http://a", false), "http://a");
}

#[test]
fn pqc_enabled_is_false_without_env() {
    assert!(!infovulcan::pqc::enabled(false, false));
    assert!(!infovulcan::pqc::enabled(true, false));
    assert!(infovulcan::pqc::enabled(true, true));
}

#[test]
fn codec_constructs_encoder_and_decoder() {
    let codec: KyberCodec<bool, bool> = KyberCodec::new(vec![1, 2], vec![3]);
    let encoder = codec.encoder();
    let decoder = codec.decoder();
    assert_eq!(encoder.seal_to(), &vec![1, 2]);
    assert_eq!(decoder.open_with(), &vec![3]);
}

#[test]
fn bodies_that_cannot_be_sealed_or_opened_are_internal_errors() {
    let codec: KyberCodec<bool, bool> = KyberCodec::new(vec![], vec![]);
    let encoder = codec.encoder();
    let decoder = codec.decoder();
    assert_eq!(encoder.encode(Ok(vec![9])).unwrap(), vec![9]);
    let err = encoder.encode(Err("bad key".to_string())).unwrap_err();
    assert_eq!(err.code, Code::Internal);
    assert_eq!(err.message, "pqc seal: bad key");
    assert_eq!(decoder.frame(&[]), None);
    assert_eq!(decoder.frame(&[1]), Some(vec![1]));
    assert!(matches!(decoder.decode(None), Ok(None)));
    assert!(matches!(
        decoder.decode(Some(Opened::Message(true))),
        Ok(Some(true))
    ));
    let err = decoder
        .decode(Some(Opened::Sealed("x".to_string())))
        .unwrap_err();
    assert_eq!(err.message, "pqc open: x");
    let err = decoder
        .decode(Some(Opened::Unreadable("y".to_string())))
        .unwrap_err();
    assert_eq!(err.message, "decode: y");
}

#[test]
fn the_echo_says_what_it_is_told() {
    assert_eq!(EchoService.say("hello".to_string()), "hello");
}

#[test]
fn a_removed_node_cannot_be_reached() {
    let mut cluster: Cluster<&str> = Cluster::new();
    cluster.insert(1, "one");
    cluster.insert(2, "two");
    assert_eq!(cluster.peer(1), Ok(&"one"));
    cluster.remove(1);
    assert_eq!(cluster.peer(1), Err("node 1 not in cluster".to_string()));
    assert_eq!(cluster.peer(2), Ok(&"two"));
}

#[test]
fn the_cluster_is_configured_and_waited_for() {
    let timings = raft_config();
    assert_eq!(timings.cluster_name, "spike-toy");
    assert_eq!(timings.heartbeat_interval, 100);
    let request = make_request("c", 3, "ok");
    assert_eq!(
        (request.client.as_str(), request.serial, request.status.as_str()),
        ("c", 3, "ok")
    );
    assert_eq!(wait_step(true, 9, 5), Wait::Done);
    assert_eq!(wait_step(false, 5, 5), Wait::TimedOut);
    assert_eq!(wait_step(false, 3, 5), Wait::Again(2));
}
