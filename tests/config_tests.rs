use addrindex_config::cache_size::cache_size_bytes;
use addrindex_config::config::{config_file_candidates, default_daemon_dir, Config, RawConfig, Timestamp};
use addrindex_config::cookie::{CookieGetter, CookieFile};
use addrindex_config::errors::Error;
use addrindex_config::network::NetworkType;

fn raw(network: NetworkType) -> RawConfig {
    RawConfig {
        network,
        db_dir: "./db".to_owned(),
        daemon_dir: "/home/u/.bitcoin".to_owned(),
        daemon_rpc_host: None,
        daemon_rpc_port: None,
        cookie: None,
        indexer_rpc_host: None,
        indexer_rpc_port: None,
        jsonrpc_import: false,
        index_batch_size: 10,
        bulk_index_threads: 0,
        txid_limit: 100,
        blocktxids_cache_size_mb_bits: 10.0f32.to_bits(),
        verbose: 2,
        timestamp: false,
    }
}

#[test]
fn mainnet_defaults() {
    let c = Config::resolve(raw(NetworkType::MainNet), 4);
    assert_eq!(c.db_path, "./db/mainnet");
    assert_eq!(c.daemon_dir, "/home/u/.bitcoin");
    assert_eq!(c.daemon_rpc_host, [127, 0, 0, 1]);
    assert_eq!(c.indexer_rpc_host, [127, 0, 0, 1]);
    assert_eq!(c.daemon_rpc_port, 8332);
    assert_eq!(c.indexer_rpc_port, 8432);
    assert_eq!(c.network_type, NetworkType::MainNet);
}

#[test]
fn testnet_defaults() {
    let c = Config::resolve(raw(NetworkType::TestNet), 4);
    assert_eq!(c.db_path, "./db/testnet");
    assert_eq!(c.daemon_dir, "/home/u/.bitcoin/testnet3");
    assert!(c.daemon_dir.ends_with("testnet3"));
    assert_eq!(c.daemon_rpc_port, 18332);
    assert_eq!(c.indexer_rpc_port, 18432);
}

#[test]
fn regtest_defaults() {
    let c = Config::resolve(raw(NetworkType::RegTest), 4);
    assert_eq!(c.db_path, "./db/regtest");
    assert_eq!(c.daemon_dir, "/home/u/.bitcoin/regtest");
    assert_eq!(c.daemon_rpc_port, 18443);
    assert_eq!(c.indexer_rpc_port, 18543);
}

#[test]
fn ports_distinct_across_networks() {
    let nets = [NetworkType::MainNet, NetworkType::TestNet, NetworkType::RegTest];
    let mut ports = Vec::new();
    for n in nets.iter() {
        let p = n.profile();
        ports.push(p.default_daemon_port);
        ports.push(p.default_indexer_port);
    }
    for i in 0..ports.len() {
        for j in 0..ports.len() {
            if i != j {
                assert_ne!(ports[i], ports[j]);
            }
        }
    }
    assert_eq!(NetworkType::MainNet.profile().db_subdir, "mainnet");
    assert_eq!(NetworkType::TestNet.profile().db_subdir, "testnet");
    assert_eq!(NetworkType::RegTest.profile().db_subdir, "regtest");
    assert_eq!(NetworkType::MainNet.profile().daemon_subdir, None);
    assert_eq!(NetworkType::TestNet.profile().daemon_subdir, Some("testnet3"));
}

#[test]
fn explicit_values_kept() {
    let mut r = raw(NetworkType::TestNet);
    r.daemon_rpc_host = Some([10, 0, 0, 5]);
    r.daemon_rpc_port = Some(1234);
    r.indexer_rpc_host = Some([0, 0, 0, 0]);
    r.indexer_rpc_port = Some(5678);
    r.bulk_index_threads = 3;
    r.jsonrpc_import = true;
    r.cookie = Some("u:p".to_owned());
    r.timestamp = true;
    let c = Config::resolve(r, 8);
    assert_eq!(c.daemon_rpc_host, [10, 0, 0, 5]);
    assert_eq!(c.daemon_rpc_port, 1234);
    assert_eq!(c.indexer_rpc_host, [0, 0, 0, 0]);
    assert_eq!(c.indexer_rpc_port, 5678);
    assert_eq!(c.bulk_index_threads, 3);
    assert!(c.jsonrpc_import);
    assert_eq!(c.cookie, Some("u:p".to_owned()));
    assert_eq!(c.index_batch_size, 10);
    assert_eq!(c.txid_limit, 100);
    assert_eq!(c.log.verbosity, 2);
    assert_eq!(c.log.timestamp, Timestamp::Millisecond);
}

#[test]
fn zero_threads_means_available() {
    let c = Config::resolve(raw(NetworkType::MainNet), 6);
    assert_eq!(c.bulk_index_threads, 6);
    assert_eq!(c.log.timestamp, Timestamp::Off);
}

#[test]
fn zero_threads_on_this_host_is_positive() {
    let c = Config::from_raw(raw(NetworkType::MainNet));
    assert!(c.bulk_index_threads >= 1);
    let mut r = raw(NetworkType::MainNet);
    r.bulk_index_threads = 7;
    assert_eq!(Config::from_raw(r).bulk_index_threads, 7);
}

#[test]
fn cache_size_one_mb() {
    assert_eq!(cache_size_bytes(1.0f32.to_bits()), 1_048_576);
}

#[test]
fn cache_size_two_and_a_half_mb() {
    assert_eq!(cache_size_bytes(2.5f32.to_bits()), 2_621_440);
}

#[test]
fn cache_size_matches_float_conversion() {
    let values = [0.0f32, -0.0, -1.5, 0.3, 1e-40, 10.0, 123.456, 1e6, 1e13, 3e38, f32::INFINITY, f32::NEG_INFINITY, f32::NAN];
    for v in values.iter() {
        let expected = (*v * ((1u32 << 20) as f32)) as usize;
        assert_eq!(cache_size_bytes(v.to_bits()), expected, "value {}", v);
    }
}

#[test]
fn cache_size_in_config() {
    let c = Config::resolve(raw(NetworkType::MainNet), 1);
    assert_eq!(c.blocktxids_cache_size, 10 * 1_048_576);
}

#[test]
fn static_cookie_returns_configured_bytes() {
    let mut r = raw(NetworkType::MainNet);
    r.cookie = Some("alice:secret".to_owned());
    let c = Config::resolve(r, 1);
    match c.cookie_getter() {
        CookieGetter::Static(s) => {
            assert_eq!(s.get().unwrap(), b"alice:secret".to_vec());
            assert_eq!(s.get().unwrap(), b"alice:secret".to_vec());
        }
        CookieGetter::File(_) => panic!("expected a fixed cookie"),
    }
    assert!(c.cookie_getter().file_to_read().is_none());
}

#[test]
fn cookie_file_reflects_each_read() {
    let c = Config::resolve(raw(NetworkType::RegTest), 1);
    let getter = c.cookie_getter();
    assert_eq!(getter.file_to_read(), Some("/home/u/.bitcoin/regtest/.cookie".to_owned()));
    match getter {
        CookieGetter::File(f) => {
            assert_eq!(f.get_from(Ok(b"bob:pw".to_vec())).unwrap(), b"bob:pw".to_vec());
            assert_eq!(f.get_from(Ok(b"bob:pw2".to_vec())).unwrap(), b"bob:pw2".to_vec());
        }
        CookieGetter::Static(_) => panic!("expected the cookie file"),
    }
}

#[test]
fn missing_cookie_file_is_connection_error() {
    let f = CookieFile { daemon_dir: "/data/node".to_owned() };
    assert_eq!(f.path(), "/data/node/.cookie");
    let missing = std::io::Error::new(std::io::ErrorKind::NotFound, "not found");
    match f.get_from(Err(missing)) {
        Err(Error::Connection { message, cause }) => {
            assert_eq!(message, "failed to read cookie from \"/data/node/.cookie\"");
            assert!(message.contains("/data/node/.cookie"));
            assert_eq!(cause.kind(), std::io::ErrorKind::NotFound);
        }
        Ok(_) => panic!("expected an error"),
    }
}

#[test]
fn trailing_separator_not_doubled() {
    let mut r = raw(NetworkType::TestNet);
    r.db_dir = "/var/db/".to_owned();
    r.daemon_dir = String::new();
    let c = Config::resolve(r, 1);
    assert_eq!(c.db_path, "/var/db/testnet");
    assert_eq!(c.daemon_dir, "testnet3");
}

#[test]
fn default_daemon_dir_under_home() {
    assert_eq!(default_daemon_dir("/home/alice"), "/home/alice/.bitcoin");
}

#[test]
fn config_files_in_order() {
    assert_eq!(
        config_file_candidates(Some("/home/alice")),
        vec![
            "addrindexrs.toml".to_owned(),
            "/home/alice/.addrindexrs/config.toml".to_owned(),
            "/etc/addrindexrs/config.toml".to_owned()
        ]
    );
    assert_eq!(
        config_file_candidates(None),
        vec!["addrindexrs.toml".to_owned(), "/etc/addrindexrs/config.toml".to_owned()]
    );
}

#[test]
fn getter_uses_read_only_for_file() {
    let mut r = raw(NetworkType::MainNet);
    r.cookie = Some("alice:secret".to_owned());
    let fixed = Config::resolve(r, 1).cookie_getter();
    assert_eq!(fixed.get_given(None).unwrap(), b"alice:secret".to_vec());
    let gone = std::io::Error::new(std::io::ErrorKind::NotFound, "gone");
    assert_eq!(fixed.get_given(Some(Err(gone))).unwrap(), b"alice:secret".to_vec());

    let file = Config::resolve(raw(NetworkType::MainNet), 1).cookie_getter();
    assert_eq!(file.get_given(Some(Ok(b"bob:pw".to_vec()))).unwrap(), b"bob:pw".to_vec());
    assert_eq!(file.get_given(Some(Ok(b"bob:pw2".to_vec()))).unwrap(), b"bob:pw2".to_vec());
    let gone = std::io::Error::new(std::io::ErrorKind::NotFound, "gone");
    match file.get_given(Some(Err(gone))) {
        Err(Error::Connection { message, .. }) => {
            assert_eq!(message, "failed to read cookie from \"/home/u/.bitcoin/.cookie\"")
        }
        Ok(_) => panic!("expected an error"),
    }
}
