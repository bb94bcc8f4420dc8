//! Derivation of the resolved configuration from the merged raw settings.
use vstd::prelude::*;
use vstd::utf8::encode_utf8;
use crate::cache_size::{cache_bytes_of, cache_size_bytes};
use crate::cookie::{cookie_outcome, static_cookie_of, CookieFile, CookieGetter, CookieSource};
use crate::network::{daemon_subdir_of, db_subdir_of, default_daemon_port_of,
    default_indexer_port_of, NetworkType, DEFAULT_SERVER_ADDRESS};
use crate::path::{join, lemma_join_ends_with, path_join};

verus! {

/// Relies on `num_cpus::get`: the number of CPUs this process may use,
/// documented to be at least 1.
#[verifier::external_body]
fn available_threads() -> (r: usize)
    ensures
        r >= 1,
{
    num_cpus::get()
}

/// How log lines are stamped.
#[derive(Clone, Copy, Debug, PartialEq, Eq, Structural)]
pub enum Timestamp {
    Millisecond,
    Off,
}

/// What the process-wide logger is set up with.
#[derive(Clone, Copy, Debug, PartialEq, Eq, Structural)]
pub struct LogSettings {
    pub verbosity: usize,
    pub timestamp: Timestamp,
}

/// The settings after command line, environment and configuration files
/// have been merged, before any derivation.
#[derive(Debug)]
pub struct RawConfig {
    pub network: NetworkType,
    pub db_dir: String,
    pub daemon_dir: String,
    pub daemon_rpc_host: Option<[u8; 4]>,
    pub daemon_rpc_port: Option<u16>,
    pub cookie: Option<String>,
    pub indexer_rpc_host: Option<[u8; 4]>,
    pub indexer_rpc_port: Option<u16>,
    pub jsonrpc_import: bool,
    pub index_batch_size: usize,
    /// 0 asks for one thread per available CPU.
    pub bulk_index_threads: usize,
    pub txid_limit: usize,
    /// Bit pattern of the single-precision size in mebibytes.
    pub blocktxids_cache_size_mb_bits: u32,
    pub verbose: u64,
    pub timestamp: bool,
}

/// The resolved configuration.
#[derive(Debug)]
pub struct Config {
    pub log: LogSettings,
    pub network_type: NetworkType,
    pub db_path: String,
    pub daemon_dir: String,
    pub daemon_rpc_host: [u8; 4],
    pub daemon_rpc_port: u16,
    pub cookie: Option<String>,
    pub indexer_rpc_host: [u8; 4],
    pub indexer_rpc_port: u16,
    pub jsonrpc_import: bool,
    pub index_batch_size: usize,
    pub bulk_index_threads: usize,
    pub txid_limit: usize,
    pub blocktxids_cache_size: usize,
}

pub open spec fn db_path_of(n: NetworkType, db_dir: Seq<char>) -> Seq<char> {
    path_join(db_dir, db_subdir_of(n))
}

/// The node's data directory for network `n`: the network's subdirectory
/// when it has one, else `daemon_dir` itself.
pub open spec fn daemon_dir_of(n: NetworkType, daemon_dir: Seq<char>) -> Seq<char> {
    match daemon_subdir_of(n) {
        Some(sub) => path_join(daemon_dir, sub),
        None => daemon_dir,
    }
}

pub open spec fn host_or_default(h: Option<[u8; 4]>) -> Seq<u8> {
    match h {
        Some(a) => a@,
        None => seq![127u8, 0u8, 0u8, 1u8],
    }
}

pub open spec fn port_or(p: Option<u16>, default: u16) -> u16 {
    match p {
        Some(v) => v,
        None => default,
    }
}

/// The thread count asked for, with 0 standing for `available`.
pub open spec fn threads_of(asked: usize, available: usize) -> usize {
    if asked == 0 {
        available
    } else {
        asked
    }
}

pub open spec fn same_text(a: Option<String>, b: Option<String>) -> bool {
    match (a, b) {
        (None, None) => true,
        (Some(x), Some(y)) => x@ == y@,
        _ => false,
    }
}

impl Config {
    /// Whether this configuration is what `raw` resolves to, every field but
    /// the thread count being derived from `raw` alone.
    pub open spec fn resolves_except_threads(&self, raw: RawConfig) -> bool {
        &&& self.network_type == raw.network
        &&& self.db_path@ == db_path_of(raw.network, raw.db_dir@)
        &&& self.daemon_dir@ == daemon_dir_of(raw.network, raw.daemon_dir@)
        &&& self.daemon_rpc_host@ == host_or_default(raw.daemon_rpc_host)
        &&& self.daemon_rpc_port == port_or(raw.daemon_rpc_port, default_daemon_port_of(raw.network))
        &&& self.indexer_rpc_host@ == host_or_default(raw.indexer_rpc_host)
        &&& self.indexer_rpc_port == port_or(raw.indexer_rpc_port, default_indexer_port_of(raw.network))
        &&& same_text(self.cookie, raw.cookie)
        &&& self.jsonrpc_import == raw.jsonrpc_import
        &&& self.index_batch_size == raw.index_batch_size
        &&& self.txid_limit == raw.txid_limit
        &&& self.blocktxids_cache_size as nat == cache_bytes_of(raw.blocktxids_cache_size_mb_bits)
        &&& self.log.verbosity == raw.verbose
        &&& self.log.timestamp == (if raw.timestamp { Timestamp::Millisecond } else { Timestamp::Off })
    }

    /// Whether this configuration is what `raw` resolves to on a host with
    /// `available` usable CPUs.
    pub open spec fn resolves(&self, raw: RawConfig, available: usize) -> bool {
        &&& self.resolves_except_threads(raw)
        &&& self.bulk_index_threads == threads_of(raw.bulk_index_threads, available)
    }

    /// Derives the configuration from the merged settings, with `available`
    /// standing for the number of usable CPUs.
    pub fn resolve(raw: RawConfig, available: usize) -> (r: Config)
        requires
            raw.verbose <= usize::MAX,
            available >= 1,
        ensures
            r.resolves(raw, available),
            r.bulk_index_threads >= 1,
    {
        let profile = raw.network.profile();
        let db_path = join(raw.db_dir.as_str(), profile.db_subdir);
        let daemon_dir = match profile.daemon_subdir {
            Some(sub) => join(raw.daemon_dir.as_str(), sub),
            None => raw.daemon_dir.clone(),
        };
        let daemon_rpc_host = match raw.daemon_rpc_host {
            Some(h) => h,
            None => DEFAULT_SERVER_ADDRESS,
        };
        let daemon_rpc_port = match raw.daemon_rpc_port {
            Some(p) => p,
            None => profile.default_daemon_port,
        };
        let indexer_rpc_host = match raw.indexer_rpc_host {
            Some(h) => h,
            None => DEFAULT_SERVER_ADDRESS,
        };
        let indexer_rpc_port = match raw.indexer_rpc_port {
            Some(p) => p,
            None => profile.default_indexer_port,
        };
        let bulk_index_threads = if raw.bulk_index_threads == 0 {
            available
        } else {
            raw.bulk_index_threads
        };
        let log = LogSettings {
            verbosity: raw.verbose as usize,
            timestamp: if raw.timestamp {
                Timestamp::Millisecond
            } else {
                Timestamp::Off
            },
        };
        let cfg = Config {
            log,
            network_type: raw.network,
            db_path,
            daemon_dir,
            daemon_rpc_host,
            daemon_rpc_port,
            cookie: raw.cookie,
            indexer_rpc_host,
            indexer_rpc_port,
            jsonrpc_import: raw.jsonrpc_import,
            index_batch_size: raw.index_batch_size,
            bulk_index_threads,
            txid_limit: raw.txid_limit,
            blocktxids_cache_size: cache_size_bytes(raw.blocktxids_cache_size_mb_bits),
        };
        proof {
            assert(DEFAULT_SERVER_ADDRESS@ =~= seq![127u8, 0u8, 0u8, 1u8]);
        }
        cfg
    }

    /// Derives the configuration from the merged settings on this host: a
    /// thread count of 0 becomes the number of CPUs the process may use.
    pub fn from_raw(raw: RawConfig) -> (r: Config)
        requires
            raw.verbose <= usize::MAX,
        ensures
            r.resolves_except_threads(raw),
            raw.bulk_index_threads != 0 ==> r.bulk_index_threads == raw.bulk_index_threads,
            r.bulk_index_threads >= 1,
    {
        let available = available_threads();
        Config::resolve(raw, available)
    }

    /// Where the credential for the node's RPC comes from: the configured
    /// cookie when there is one, else the cookie file in the data directory.
    pub open spec fn cookie_source(&self) -> CookieSource {
        match self.cookie {
            Some(c) => CookieSource::Fixed(encode_utf8(c@)),
            None => CookieSource::File(self.daemon_dir@),
        }
    }

    /// A credential accessor for the node's RPC, chosen anew at each call.
    pub fn cookie_getter(&self) -> (r: CookieGetter)
        ensures
            r.source() == self.cookie_source(),
    {
        match &self.cookie {
            Some(value) => CookieGetter::Static(static_cookie_of(value.as_str())),
            None => CookieGetter::File(CookieFile { daemon_dir: self.daemon_dir.clone() }),
        }
    }
}

/// A thread count of 0 resolves to at least one thread; any other count is
/// kept as it is.
pub proof fn lemma_thread_count(asked: usize, available: usize)
    requires
        available >= 1,
    ensures
        threads_of(asked, available) >= 1,
        asked != 0 ==> threads_of(asked, available) == asked,
{
}

/// With a configured cookie, obtaining the credential yields exactly the
/// cookie's bytes, whatever the cookie file holds or whether it exists.
pub proof fn lemma_configured_cookie_is_fixed(cfg: Config, file: Option<Seq<u8>>)
    requires
        cfg.cookie is Some,
    ensures
        cookie_outcome(cfg.cookie_source(), file) == Some(encode_utf8(cfg.cookie->0@)),
{
}

/// Without a configured cookie, each time the credential is obtained it is
/// what the cookie file holds at that time: a rewritten file gives its new
/// contents, and a missing one gives nothing.
pub proof fn lemma_cookie_file_read_each_time(cfg: Config, first: Seq<u8>, second: Seq<u8>)
    requires
        cfg.cookie is None,
    ensures
        cookie_outcome(cfg.cookie_source(), Some(first)) == Some(first),
        cookie_outcome(cfg.cookie_source(), Some(second)) == Some(second),
        cookie_outcome(cfg.cookie_source(), None) is None,
{
}

/// The node's data directory ends with "testnet3" on the test network and
/// with "regtest" on the regression-test network, and is left as given on
/// the main network.
pub proof fn lemma_daemon_dir_per_network(daemon_dir: Seq<char>)
    ensures
        daemon_dir_of(NetworkType::MainNet, daemon_dir) == daemon_dir,
        ({
            let d = daemon_dir_of(NetworkType::TestNet, daemon_dir);
            d.len() >= 8 && d.subrange(d.len() - 8, d.len() as int) == "testnet3"@
        }),
        ({
            let d = daemon_dir_of(NetworkType::RegTest, daemon_dir);
            d.len() >= 7 && d.subrange(d.len() - 7, d.len() as int) == "regtest"@
        }),
{
    reveal_strlit("testnet3");
    reveal_strlit("regtest");
    lemma_join_ends_with(daemon_dir, "testnet3"@);
    lemma_join_ends_with(daemon_dir, "regtest"@);
}

/// The node's default data directory: `.bitcoin` in the home directory.
pub fn default_daemon_dir(home: &str) -> (r: String)
    ensures
        r@ == path_join(home@, ".bitcoin"@),
{
    proof {
        reveal_strlit(".bitcoin");
    }
    join(home, ".bitcoin")
}

/// The configuration files consulted, in order: one in the working
/// directory, one in the user's home directory when it is known, and the
/// system-wide one.
pub fn config_file_candidates(home: Option<&str>) -> (r: Vec<String>)
    ensures
        match home {
            Some(h) => r@.len() == 3 && r@[1]@ == path_join(
                path_join(h@, ".addrindexrs"@),
                "config.toml"@,
            ) && r@[2]@ == "/etc/addrindexrs/config.toml"@,
            None => r@.len() == 2 && r@[1]@ == "/etc/addrindexrs/config.toml"@,
        },
        r@[0]@ == "addrindexrs.toml"@,
{
    proof {
        reveal_strlit(".addrindexrs");
        reveal_strlit("config.toml");
        reveal_strlit("addrindexrs.toml");
        reveal_strlit("/etc/addrindexrs/config.toml");
    }
    let mut r: Vec<String> = Vec::new();
    r.push("addrindexrs.toml".to_owned());
    match home {
        Some(h) => {
            let dir = join(h, ".addrindexrs");
            r.push(join(dir.as_str(), "config.toml"));
        },
        None => {},
    }
    r.push("/etc/addrindexrs/config.toml".to_owned());
    r
}

} // verus!
