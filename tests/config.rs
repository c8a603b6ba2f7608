use raft_config::builder::{bare_flag, env_lookup, field_of_flag, parse_overrides, split_override};
use raft_config::parse::{byte_count, parse_bytes_with_unit, parse_snapshot_policy, parse_u64, str_equal};
use raft_config::{Config, ConfigError, Field, ParseError, SnapshotPolicy};

fn assert_defaults(cfg: &Config) {
    assert_eq!("foo", cfg.cluster_name);
    assert_eq!(150, cfg.election_timeout_min);
    assert_eq!(300, cfg.election_timeout_max);
    assert_eq!(50, cfg.heartbeat_interval);
    assert_eq!(200, cfg.install_snapshot_timeout);
    assert_eq!(300, cfg.max_payload_entries);
    assert_eq!(1000, cfg.replication_lag_threshold);
    assert_eq!(SnapshotPolicy::LogsSinceLast(5000), cfg.snapshot_policy);
    assert_eq!(3 * 1024 * 1024, cfg.snapshot_max_chunk_size);
    assert_eq!(1000, cfg.max_applied_log_to_keep);
}

fn config_with(min: u64, max: u64, heartbeat: u64, payload: u64) -> Config {
    Config {
        election_timeout_min: min,
        election_timeout_max: max,
        heartbeat_interval: heartbeat,
        max_payload_entries: payload,
        ..Default::default()
    }
}

#[test]
fn test_config_defaults() {
    let cfg = Config::default();

    assert!(cfg.election_timeout_min >= 150);
    assert!(cfg.election_timeout_max <= 300);

    assert_eq!(50, cfg.heartbeat_interval);
    assert_eq!(300, cfg.max_payload_entries);
    assert_eq!(1000, cfg.replication_lag_threshold);

    assert_eq!(3 * 1024 * 1024, cfg.snapshot_max_chunk_size);
    assert_eq!(SnapshotPolicy::LogsSinceLast(5000), cfg.snapshot_policy);
}

#[test]
fn test_invalid_election_timeout_config_produces_expected_error() {
    let config = Config {
        election_timeout_min: 1000,
        election_timeout_max: 700,
        ..Default::default()
    };

    let res = config.validate();
    let err = res.unwrap_err();
    assert_eq!(err, ConfigError::InvalidElectionTimeoutMinMax);
}

#[test]
fn test_build() -> Result<(), ConfigError> {
    let config = Config::build(&[
        "foo",
        "--cluster-name=bar",
        "--election-timeout-min=10",
        "--election-timeout-max=20",
        "--heartbeat-interval=5",
        "--install-snapshot-timeout=200",
        "--max-payload-entries=201",
        "--replication-lag-threshold=202",
        "--snapshot-policy=since_last:203",
        "--snapshot-max-chunk-size=204",
        "--max-applied-log-to-keep=205",
    ])?;

    assert_eq!("bar", config.cluster_name);
    assert_eq!(10, config.election_timeout_min);
    assert_eq!(20, config.election_timeout_max);
    assert_eq!(5, config.heartbeat_interval);
    assert_eq!(200, config.install_snapshot_timeout);
    assert_eq!(201, config.max_payload_entries);
    assert_eq!(202, config.replication_lag_threshold);
    assert_eq!(SnapshotPolicy::LogsSinceLast(203), config.snapshot_policy);
    assert_eq!(204, config.snapshot_max_chunk_size);
    assert_eq!(205, config.max_applied_log_to_keep);

    Ok(())
}

#[test]
fn default_config_holds_every_default() {
    assert_defaults(&Config::default_config());
}

#[test]
fn build_without_overrides_gives_defaults() {
    assert_defaults(&Config::build(&[]).unwrap());
    assert_defaults(&Config::build(&["prog"]).unwrap());
    let env = [("HOME", "/root"), ("RAFT_UNKNOWN", "1")];
    assert_defaults(&Config::build_with_env(&["prog"], &env).unwrap());
}

#[test]
fn build_prefers_override_to_environment_to_default() {
    let env = [
        ("RAFT_ELECTION_TIMEOUT_MIN", "100"),
        ("RAFT_ELECTION_TIMEOUT_MAX", "400"),
        ("RAFT_ELECTION_TIMEOUT_MAX", "999"),
    ];
    let cfg = Config::build_with_env(&["prog", "--election-timeout-min=120"], &env).unwrap();
    assert_eq!(120, cfg.election_timeout_min);
    assert_eq!(400, cfg.election_timeout_max);
    assert_eq!(50, cfg.heartbeat_interval);
}

#[test]
fn build_reads_byte_units_and_policies_from_environment() {
    let env = [("RAFT_SNAPSHOT_MAX_CHUNK_SIZE", "2 KiB"), ("RAFT_SNAPSHOT_POLICY", "since_last:7")];
    let cfg = Config::build_with_env(&["prog"], &env).unwrap();
    assert_eq!(2048, cfg.snapshot_max_chunk_size);
    assert_eq!(SnapshotPolicy::LogsSinceLast(7), cfg.snapshot_policy);
}

#[test]
fn build_rejects_unknown_or_malformed_tokens() {
    assert_eq!(Err(ConfigError::UnknownArgument), Config::build(&["prog", "--no-such-field=1"]).map(|_| ()));
    assert_eq!(Err(ConfigError::UnknownArgument), Config::build(&["prog", "cluster-name=x"]).map(|_| ()));
    assert_eq!(Err(ConfigError::UnknownArgument), Config::build(&["prog", "--no-such-field", "1"]).map(|_| ()));
    assert_eq!(
        Err(ConfigError::MissingValue { field: Field::ClusterName }),
        Config::build(&["prog", "--cluster-name"]).map(|_| ())
    );
}

#[test]
fn build_takes_a_flag_and_its_value_as_two_tokens() {
    let cfg = Config::build(&["prog", "--cluster-name", "bar", "--heartbeat-interval=7", "--max-payload-entries", "9"])
        .unwrap();
    assert_eq!("bar", cfg.cluster_name);
    assert_eq!(7, cfg.heartbeat_interval);
    assert_eq!(9, cfg.max_payload_entries);
    let r = Config::build(&["prog", "--cluster-name", "a", "--cluster-name=b"]);
    assert_eq!(Err(ConfigError::DuplicateArgument { field: Field::ClusterName }), r.map(|_| ()));
}

#[test]
fn build_rejects_a_field_given_twice() {
    let r = Config::build(&["prog", "--heartbeat-interval=5", "--heartbeat-interval=6"]);
    assert_eq!(Err(ConfigError::DuplicateArgument { field: Field::HeartbeatInterval }), r.map(|_| ()));
}

#[test]
fn build_reports_the_first_unreadable_field() {
    let r = Config::build(&["prog", "--max-applied-log-to-keep=x", "--heartbeat-interval=-1"]);
    assert_eq!(
        Err(ConfigError::InvalidValue { field: Field::HeartbeatInterval, error: ParseError::NotAnInteger }),
        r.map(|_| ())
    );
    let r = Config::build(&["prog", "--snapshot-policy=foo:1"]);
    assert_eq!(
        Err(ConfigError::InvalidValue { field: Field::SnapshotPolicy, error: ParseError::MalformedSnapshotPolicy }),
        r.map(|_| ())
    );
    let r = Config::build(&["prog", "--snapshot-policy=since_last:x"]);
    assert_eq!(
        Err(ConfigError::InvalidValue { field: Field::SnapshotPolicy, error: ParseError::MalformedSnapshotPolicy }),
        r.map(|_| ())
    );
    let r = Config::build(&["prog", "--snapshot-max-chunk-size=abc"]);
    assert_eq!(
        Err(ConfigError::InvalidValue { field: Field::SnapshotMaxChunkSize, error: ParseError::MalformedByteSize }),
        r.map(|_| ())
    );
}

#[test]
fn build_validates_the_result() {
    let r = Config::build(&["prog", "--election-timeout-min=10", "--election-timeout-max=20"]);
    assert_eq!(Err(ConfigError::ElectionTimeoutLessThanHeartBeatInterval), r.map(|_| ()));
    let r = Config::build(&["prog", "--max-payload-entries=0"]);
    assert_eq!(Err(ConfigError::MaxPayloadEntriesTooSmall), r.map(|_| ()));
}

#[test]
fn validate_rejects_min_not_below_max() {
    assert_eq!(Err(ConfigError::InvalidElectionTimeoutMinMax), config_with(300, 300, 50, 1).validate().map(|_| ()));
    assert_eq!(Err(ConfigError::InvalidElectionTimeoutMinMax), config_with(400, 300, 50, 1).validate().map(|_| ()));
    // every invariant broken: the first one is reported
    assert_eq!(Err(ConfigError::InvalidElectionTimeoutMinMax), config_with(400, 300, 500, 0).validate().map(|_| ()));
}

#[test]
fn validate_rejects_min_not_above_heartbeat() {
    assert_eq!(
        Err(ConfigError::ElectionTimeoutLessThanHeartBeatInterval),
        config_with(50, 300, 50, 1).validate().map(|_| ())
    );
    assert_eq!(
        Err(ConfigError::ElectionTimeoutLessThanHeartBeatInterval),
        config_with(10, 300, 50, 0).validate().map(|_| ())
    );
}

#[test]
fn validate_checks_payload_entries() {
    assert_eq!(Err(ConfigError::MaxPayloadEntriesTooSmall), config_with(150, 300, 50, 0).validate().map(|_| ()));
    let cfg = config_with(150, 300, 50, 1).validate().unwrap();
    assert_eq!(1, cfg.max_payload_entries);
    assert_eq!(150, cfg.election_timeout_min);
}

#[test]
fn byte_sizes_parse() {
    assert_eq!(Ok(3_145_728), parse_bytes_with_unit("3MiB"));
    assert_eq!(Ok(204), parse_bytes_with_unit("204"));
    assert_eq!(Ok(8000), parse_bytes_with_unit("8 kb"));
    assert_eq!(Err(ParseError::MalformedByteSize), parse_bytes_with_unit("abc"));
    assert_eq!(Err(ParseError::MalformedByteSize), parse_bytes_with_unit("3 XB"));
    assert_eq!(Err(ParseError::MalformedByteSize), parse_bytes_with_unit(""));
}

#[test]
fn byte_counts_fit_in_64_bits() {
    assert_eq!(Ok(u64::MAX), byte_count(Some(u64::MAX as u128)));
    assert_eq!(Err(ParseError::ByteSizeTooLarge), byte_count(Some(u64::MAX as u128 + 1)));
    assert_eq!(Err(ParseError::MalformedByteSize), byte_count(None));
    assert_eq!(Err(ParseError::ByteSizeTooLarge), parse_bytes_with_unit("100 EiB"));
}

#[test]
fn snapshot_policies_parse() {
    assert_eq!(Ok(SnapshotPolicy::LogsSinceLast(5000)), parse_snapshot_policy("since_last:5000"));
    assert_eq!(Err(ParseError::MalformedSnapshotPolicy), parse_snapshot_policy("since_last:"));
    assert_eq!(Err(ParseError::MalformedSnapshotPolicy), parse_snapshot_policy("foo:5000"));
    assert_eq!(Err(ParseError::MalformedSnapshotPolicy), parse_snapshot_policy("since_last:abc"));
    assert_eq!(Err(ParseError::MalformedSnapshotPolicy), parse_snapshot_policy("since_last"));
    assert_eq!(Err(ParseError::MalformedSnapshotPolicy), parse_snapshot_policy("since_last:1:2"));
}

#[test]
fn decimal_integers_parse() {
    assert_eq!(Some(0), parse_u64("0"));
    assert_eq!(Some(5), parse_u64("+5"));
    assert_eq!(Some(u64::MAX), parse_u64("18446744073709551615"));
    assert_eq!(None, parse_u64("18446744073709551616"));
    assert_eq!(None, parse_u64(""));
    assert_eq!(None, parse_u64("+"));
    assert_eq!(None, parse_u64("-1"));
    assert_eq!(None, parse_u64("12a"));
}

#[test]
fn random_election_timeouts_stay_in_bounds() {
    let cfg = config_with(10, 20, 5, 1);
    for _ in 0..10_000 {
        let v = cfg.new_rand_election_timeout();
        assert!(10 <= v && v < 20);
    }
}

#[test]
fn field_table_names_flags_and_variables() {
    assert_eq!("election-timeout-min", Field::ElectionTimeoutMin.flag());
    assert_eq!("RAFT_ELECTION_TIMEOUT_MIN", Field::ElectionTimeoutMin.env_var());
    assert_eq!("snapshot-max-chunk-size", Field::SnapshotMaxChunkSize.flag());
    assert_eq!(7, Field::SnapshotPolicy.position());
    assert_eq!(Some(Field::MaxPayloadEntries), field_of_flag("max-payload-entries"));
    assert_eq!(None, field_of_flag("max_payload_entries"));
}

#[test]
fn override_tokens_split() {
    assert_eq!(Some((Field::ClusterName, "a=b")), split_override("--cluster-name=a=b"));
    assert_eq!(None, split_override("-cluster-name=a"));
    assert_eq!(None, split_override("--cluster-name"));
    assert_eq!(Some(Field::ClusterName), bare_flag("--cluster-name"));
    assert_eq!(None, bare_flag("--cluster-name=a"));
    let ov = parse_overrides(&["prog", "--cluster-name=x"]).unwrap();
    assert_eq!(10, ov.len());
    assert_eq!(Some("x"), ov[0]);
    assert!(ov[1].is_none());
}

#[test]
fn environment_lookup_takes_first_entry() {
    let env = [("A", "1"), ("B", "2"), ("A", "3")];
    assert_eq!(Some("1"), env_lookup(&env, "A"));
    assert_eq!(None, env_lookup(&env, "C"));
    assert!(str_equal("abc", "abc"));
    assert!(!str_equal("abc", "abd"));
}
