//! The configuration value, its defaults and its validation.
use vstd::prelude::*;

use crate::error::ConfigError;

verus! {

/// Log compaction and snapshot policy.
///
/// This governs when periodic snapshots are taken, and the conditions under
/// which a leader sends a snapshot to a follower that lags behind.
#[derive(Clone, Copy, Debug, PartialEq, Eq, Structural)]
pub enum SnapshotPolicy {
    /// A snapshot is generated once the log has grown by this many entries
    /// since the last snapshot.
    LogsSinceLast(u64),
}

/// The runtime configuration of a Raft node.
///
/// Keep the election timeouts well above the time a round of heartbeats
/// takes, so that followers do not start spurious elections, and well below
/// the mean time between failures, so that a crashed leader is replaced
/// quickly.
#[derive(Clone, Debug)]
pub struct Config {
    /// The application specific name of this Raft cluster.
    pub cluster_name: String,
    /// The minimum election timeout in milliseconds.
    pub election_timeout_min: u64,
    /// The maximum election timeout in milliseconds.
    pub election_timeout_max: u64,
    /// The interval in milliseconds at which leaders send heartbeats.
    pub heartbeat_interval: u64,
    /// The timeout for sending a snapshot segment, in milliseconds.
    pub install_snapshot_timeout: u64,
    /// The maximum number of entries per replication payload.
    pub max_payload_entries: u64,
    /// How far behind a follower must fall before it is considered lagging.
    pub replication_lag_threshold: u64,
    /// When to take a new snapshot.
    pub snapshot_policy: SnapshotPolicy,
    /// The maximum snapshot chunk size in bytes.
    pub snapshot_max_chunk_size: u64,
    /// The maximum number of applied log entries kept before purging.
    pub max_applied_log_to_keep: u64,
}

/// A configuration as a mathematical value.
pub struct ConfigView {
    pub cluster_name: Seq<char>,
    pub election_timeout_min: u64,
    pub election_timeout_max: u64,
    pub heartbeat_interval: u64,
    pub install_snapshot_timeout: u64,
    pub max_payload_entries: u64,
    pub replication_lag_threshold: u64,
    pub snapshot_policy: SnapshotPolicy,
    pub snapshot_max_chunk_size: u64,
    pub max_applied_log_to_keep: u64,
}

impl View for Config {
    type V = ConfigView;

    open spec fn view(&self) -> ConfigView {
        ConfigView {
            cluster_name: self.cluster_name@,
            election_timeout_min: self.election_timeout_min,
            election_timeout_max: self.election_timeout_max,
            heartbeat_interval: self.heartbeat_interval,
            install_snapshot_timeout: self.install_snapshot_timeout,
            max_payload_entries: self.max_payload_entries,
            replication_lag_threshold: self.replication_lag_threshold,
            snapshot_policy: self.snapshot_policy,
            snapshot_max_chunk_size: self.snapshot_max_chunk_size,
            max_applied_log_to_keep: self.max_applied_log_to_keep,
        }
    }
}

pub const DEFAULT_ELECTION_TIMEOUT_MIN: u64 = 150;
pub const DEFAULT_ELECTION_TIMEOUT_MAX: u64 = 300;
pub const DEFAULT_HEARTBEAT_INTERVAL: u64 = 50;
pub const DEFAULT_INSTALL_SNAPSHOT_TIMEOUT: u64 = 200;
pub const DEFAULT_MAX_PAYLOAD_ENTRIES: u64 = 300;
pub const DEFAULT_REPLICATION_LAG_THRESHOLD: u64 = 1000;
pub const DEFAULT_SNAPSHOT_LOGS_SINCE_LAST: u64 = 5000;
/// Three mebibytes.
pub const DEFAULT_SNAPSHOT_MAX_CHUNK_SIZE: u64 = 3 * 1024 * 1024;
pub const DEFAULT_MAX_APPLIED_LOG_TO_KEEP: u64 = 1000;

/// The default cluster name.
pub open spec fn default_cluster_name() -> Seq<char> {
    seq!['f', 'o', 'o']
}

/// The configuration that is used where no source gives a value.
pub open spec fn default_view() -> ConfigView {
    ConfigView {
        cluster_name: default_cluster_name(),
        election_timeout_min: DEFAULT_ELECTION_TIMEOUT_MIN,
        election_timeout_max: DEFAULT_ELECTION_TIMEOUT_MAX,
        heartbeat_interval: DEFAULT_HEARTBEAT_INTERVAL,
        install_snapshot_timeout: DEFAULT_INSTALL_SNAPSHOT_TIMEOUT,
        max_payload_entries: DEFAULT_MAX_PAYLOAD_ENTRIES,
        replication_lag_threshold: DEFAULT_REPLICATION_LAG_THRESHOLD,
        snapshot_policy: SnapshotPolicy::LogsSinceLast(DEFAULT_SNAPSHOT_LOGS_SINCE_LAST),
        snapshot_max_chunk_size: DEFAULT_SNAPSHOT_MAX_CHUNK_SIZE,
        max_applied_log_to_keep: DEFAULT_MAX_APPLIED_LOG_TO_KEEP,
    }
}

/// The first invariant that `c` breaks, checked in a fixed order, if any.
pub open spec fn validation_error(c: ConfigView) -> Option<ConfigError> {
    if c.election_timeout_min >= c.election_timeout_max {
        Some(ConfigError::InvalidElectionTimeoutMinMax)
    } else if c.election_timeout_min <= c.heartbeat_interval {
        Some(ConfigError::ElectionTimeoutLessThanHeartBeatInterval)
    } else if c.max_payload_entries == 0 {
        Some(ConfigError::MaxPayloadEntriesTooSmall)
    } else {
        None
    }
}

/// Whether `c` meets every invariant of a validated configuration.
pub open spec fn is_valid(c: ConfigView) -> bool {
    &&& c.election_timeout_min < c.election_timeout_max
    &&& c.election_timeout_min > c.heartbeat_interval
    &&& c.max_payload_entries > 0
}

impl Config {
    /// The configuration with every field at its default.
    pub fn default_config() -> (r: Config)
        ensures
            r@ == default_view(),
    {
        let cluster_name = String::from_str("foo");
        proof {
            reveal_strlit("foo");
            assert(cluster_name@ =~= default_cluster_name());
        }
        Config {
            cluster_name,
            election_timeout_min: DEFAULT_ELECTION_TIMEOUT_MIN,
            election_timeout_max: DEFAULT_ELECTION_TIMEOUT_MAX,
            heartbeat_interval: DEFAULT_HEARTBEAT_INTERVAL,
            install_snapshot_timeout: DEFAULT_INSTALL_SNAPSHOT_TIMEOUT,
            max_payload_entries: DEFAULT_MAX_PAYLOAD_ENTRIES,
            replication_lag_threshold: DEFAULT_REPLICATION_LAG_THRESHOLD,
            snapshot_policy: SnapshotPolicy::LogsSinceLast(DEFAULT_SNAPSHOT_LOGS_SINCE_LAST),
            snapshot_max_chunk_size: DEFAULT_SNAPSHOT_MAX_CHUNK_SIZE,
            max_applied_log_to_keep: DEFAULT_MAX_APPLIED_LOG_TO_KEEP,
        }
    }

    /// Validate this configuration: hand it back unchanged if it meets every
    /// invariant, else report the first invariant that it breaks.
    pub fn validate(self) -> (r: Result<Config, ConfigError>)
        ensures
            validation_error(self@) is None <==> r is Ok,
            r is Ok <==> is_valid(self@),
            validation_error(self@) is None ==> r == Ok::<Config, ConfigError>(self),
            validation_error(self@) matches Some(e) ==> r == Err::<Config, ConfigError>(e),
    {
        if self.election_timeout_min >= self.election_timeout_max {
            return Err(ConfigError::InvalidElectionTimeoutMinMax);
        }
        if self.election_timeout_min <= self.heartbeat_interval {
            return Err(ConfigError::ElectionTimeoutLessThanHeartBeatInterval);
        }
        if self.max_payload_entries == 0 {
            return Err(ConfigError::MaxPayloadEntriesTooSmall);
        }
        Ok(self)
    }
}

/// Relies on `rand::thread_rng` and `rand::Rng::gen_range`: a value drawn
/// from the half-open range `lo..hi`, which must not be empty (it panics then).
#[verifier::external_body]
fn random_in_range(lo: u64, hi: u64) -> (r: u64)
    requires
        lo < hi,
    ensures
        lo <= r < hi,
{
    rand::Rng::gen_range(&mut rand::thread_rng(), lo..hi)
}

impl Config {
    /// Draw a new random election timeout from `election_timeout_min`
    /// (included) to `election_timeout_max` (excluded).
    pub fn new_rand_election_timeout(&self) -> (r: u64)
        requires
            self.election_timeout_min < self.election_timeout_max,
        ensures
            self.election_timeout_min <= r < self.election_timeout_max,
    {
        random_in_range(self.election_timeout_min, self.election_timeout_max)
    }
}

/// A window of election timeouts that is empty or reversed is rejected as such.
pub proof fn lemma_min_not_below_max_rejected(c: ConfigView)
    requires
        c.election_timeout_min >= c.election_timeout_max,
    ensures
        validation_error(c) == Some(ConfigError::InvalidElectionTimeoutMinMax),
{
}

/// A minimum election timeout that does not exceed the heartbeat interval is
/// rejected; it is reported as such wherever the timeout window itself is
/// well ordered, which is checked first.
pub proof fn lemma_min_not_above_heartbeat_rejected(c: ConfigView)
    requires
        c.election_timeout_min <= c.heartbeat_interval,
    ensures
        validation_error(c) is Some,
        c.election_timeout_min < c.election_timeout_max ==> validation_error(c) == Some(
            ConfigError::ElectionTimeoutLessThanHeartBeatInterval,
        ),
{
}

/// An empty replication payload is rejected as such once the timeouts are
/// in order, and any payload of at least one entry passes that check.
pub proof fn lemma_payload_entries_checked(c: ConfigView)
    ensures
        c.max_payload_entries == 0 && c.election_timeout_min < c.election_timeout_max
            && c.election_timeout_min > c.heartbeat_interval ==> validation_error(c) == Some(
            ConfigError::MaxPayloadEntriesTooSmall,
        ),
        c.max_payload_entries >= 1 ==> validation_error(c) != Some(
            ConfigError::MaxPayloadEntriesTooSmall,
        ),
{
}

/// Validation accepts exactly the configurations that meet every invariant.
pub proof fn lemma_validation_accepts_valid(c: ConfigView)
    ensures
        validation_error(c) is None <==> is_valid(c),
{
}

impl Default for Config {
    fn default() -> (r: Config)
        ensures
            r@ == default_view(),
    {
        Config::default_config()
    }
}

} // verus!
