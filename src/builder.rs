//! Building a configuration from explicit overrides, the environment and
//! the defaults, field by field.
use vstd::prelude::*;

use crate::config::{
    default_view, is_valid, validation_error, Config, ConfigView, SnapshotPolicy,
    DEFAULT_ELECTION_TIMEOUT_MAX, DEFAULT_ELECTION_TIMEOUT_MIN, DEFAULT_HEARTBEAT_INTERVAL,
    DEFAULT_INSTALL_SNAPSHOT_TIMEOUT, DEFAULT_MAX_APPLIED_LOG_TO_KEEP,
    DEFAULT_MAX_PAYLOAD_ENTRIES, DEFAULT_REPLICATION_LAG_THRESHOLD,
    DEFAULT_SNAPSHOT_LOGS_SINCE_LAST, DEFAULT_SNAPSHOT_MAX_CHUNK_SIZE,
};
use crate::error::{ConfigError, Field, ParseError};
use crate::parse::{
    byte_count_of, byte_size_of, decimal_of, find_char, parse_bytes_with_unit, parse_snapshot_policy,
    parse_u64, snapshot_policy_of, str_equal,
};

verus! {

impl Field {
    /// The place of this field in declaration order.
    pub open spec fn spec_position(self) -> int {
        match self {
            Field::ClusterName => 0,
            Field::ElectionTimeoutMin => 1,
            Field::ElectionTimeoutMax => 2,
            Field::HeartbeatInterval => 3,
            Field::InstallSnapshotTimeout => 4,
            Field::MaxPayloadEntries => 5,
            Field::ReplicationLagThreshold => 6,
            Field::SnapshotPolicy => 7,
            Field::SnapshotMaxChunkSize => 8,
            Field::MaxAppliedLogToKeep => 9,
        }
    }

    /// The place of this field in declaration order.
    pub fn position(self) -> (r: usize)
        ensures
            r == self.spec_position(),
            r < NUM_FIELDS,
    {
        match self {
            Field::ClusterName => 0,
            Field::ElectionTimeoutMin => 1,
            Field::ElectionTimeoutMax => 2,
            Field::HeartbeatInterval => 3,
            Field::InstallSnapshotTimeout => 4,
            Field::MaxPayloadEntries => 5,
            Field::ReplicationLagThreshold => 6,
            Field::SnapshotPolicy => 7,
            Field::SnapshotMaxChunkSize => 8,
            Field::MaxAppliedLogToKeep => 9,
        }
    }

    /// The name of the command-line flag of this field, without the `--`.
    pub open spec fn spec_flag(self) -> Seq<char> {
        match self {
            Field::ClusterName => "cluster-name"@,
            Field::ElectionTimeoutMin => "election-timeout-min"@,
            Field::ElectionTimeoutMax => "election-timeout-max"@,
            Field::HeartbeatInterval => "heartbeat-interval"@,
            Field::InstallSnapshotTimeout => "install-snapshot-timeout"@,
            Field::MaxPayloadEntries => "max-payload-entries"@,
            Field::ReplicationLagThreshold => "replication-lag-threshold"@,
            Field::SnapshotPolicy => "snapshot-policy"@,
            Field::SnapshotMaxChunkSize => "snapshot-max-chunk-size"@,
            Field::MaxAppliedLogToKeep => "max-applied-log-to-keep"@,
        }
    }

    /// The name of the environment variable of this field.
    pub open spec fn spec_env_var(self) -> Seq<char> {
        match self {
            Field::ClusterName => "RAFT_CLUSTER_NAME"@,
            Field::ElectionTimeoutMin => "RAFT_ELECTION_TIMEOUT_MIN"@,
            Field::ElectionTimeoutMax => "RAFT_ELECTION_TIMEOUT_MAX"@,
            Field::HeartbeatInterval => "RAFT_HEARTBEAT_INTERVAL"@,
            Field::InstallSnapshotTimeout => "RAFT_INSTALL_SNAPSHOT_TIMEOUT"@,
            Field::MaxPayloadEntries => "RAFT_MAX_PAYLOAD_ENTRIES"@,
            Field::ReplicationLagThreshold => "RAFT_REPLICATION_LAG_THRESHOLD"@,
            Field::SnapshotPolicy => "RAFT_SNAPSHOT_POLICY"@,
            Field::SnapshotMaxChunkSize => "RAFT_SNAPSHOT_MAX_CHUNK_SIZE"@,
            Field::MaxAppliedLogToKeep => "RAFT_MAX_APPLIED_LOG_TO_KEEP"@,
        }
    }

    /// The name of the command-line flag of this field, without the `--`.
    pub fn flag(self) -> (r: &'static str)
        ensures
            r@ == self.spec_flag(),
    {
        match self {
            Field::ClusterName => "cluster-name",
            Field::ElectionTimeoutMin => "election-timeout-min",
            Field::ElectionTimeoutMax => "election-timeout-max",
            Field::HeartbeatInterval => "heartbeat-interval",
            Field::InstallSnapshotTimeout => "install-snapshot-timeout",
            Field::MaxPayloadEntries => "max-payload-entries",
            Field::ReplicationLagThreshold => "replication-lag-threshold",
            Field::SnapshotPolicy => "snapshot-policy",
            Field::SnapshotMaxChunkSize => "snapshot-max-chunk-size",
            Field::MaxAppliedLogToKeep => "max-applied-log-to-keep",
        }
    }

    /// The name of the environment variable of this field.
    pub fn env_var(self) -> (r: &'static str)
        ensures
            r@ == self.spec_env_var(),
    {
        match self {
            Field::ClusterName => "RAFT_CLUSTER_NAME",
            Field::ElectionTimeoutMin => "RAFT_ELECTION_TIMEOUT_MIN",
            Field::ElectionTimeoutMax => "RAFT_ELECTION_TIMEOUT_MAX",
            Field::HeartbeatInterval => "RAFT_HEARTBEAT_INTERVAL",
            Field::InstallSnapshotTimeout => "RAFT_INSTALL_SNAPSHOT_TIMEOUT",
            Field::MaxPayloadEntries => "RAFT_MAX_PAYLOAD_ENTRIES",
            Field::ReplicationLagThreshold => "RAFT_REPLICATION_LAG_THRESHOLD",
            Field::SnapshotPolicy => "RAFT_SNAPSHOT_POLICY",
            Field::SnapshotMaxChunkSize => "RAFT_SNAPSHOT_MAX_CHUNK_SIZE",
            Field::MaxAppliedLogToKeep => "RAFT_MAX_APPLIED_LOG_TO_KEEP",
        }
    }
}

/// The number of fields of a configuration.
pub const NUM_FIELDS: usize = 10;

/// The field whose flag is `name`, if any.
pub open spec fn field_named(name: Seq<char>) -> Option<Field> {
    if name == Field::ClusterName.spec_flag() {
        Some(Field::ClusterName)
    } else if name == Field::ElectionTimeoutMin.spec_flag() {
        Some(Field::ElectionTimeoutMin)
    } else if name == Field::ElectionTimeoutMax.spec_flag() {
        Some(Field::ElectionTimeoutMax)
    } else if name == Field::HeartbeatInterval.spec_flag() {
        Some(Field::HeartbeatInterval)
    } else if name == Field::InstallSnapshotTimeout.spec_flag() {
        Some(Field::InstallSnapshotTimeout)
    } else if name == Field::MaxPayloadEntries.spec_flag() {
        Some(Field::MaxPayloadEntries)
    } else if name == Field::ReplicationLagThreshold.spec_flag() {
        Some(Field::ReplicationLagThreshold)
    } else if name == Field::SnapshotPolicy.spec_flag() {
        Some(Field::SnapshotPolicy)
    } else if name == Field::SnapshotMaxChunkSize.spec_flag() {
        Some(Field::SnapshotMaxChunkSize)
    } else if name == Field::MaxAppliedLogToKeep.spec_flag() {
        Some(Field::MaxAppliedLogToKeep)
    } else {
        None
    }
}

/// What an override token `--<flag>=<value>` sets: the field that `flag`
/// names, and `value`, everything after the first `=`.
pub open spec fn override_of(t: Seq<char>) -> Option<(Field, Seq<char>)> {
    let k = find_char(t, '=', 0);
    if t.len() >= 2 && t[0] == '-' && t[1] == '-' && k < t.len() {
        match field_named(t.subrange(2, k)) {
            Some(f) => Some((f, t.skip(k + 1))),
            None => None,
        }
    } else {
        None
    }
}

/// No field overridden: one empty slot per field.
pub open spec fn no_overrides() -> Seq<Option<Seq<char>>> {
    Seq::new(NUM_FIELDS as nat, |i: int| None)
}

/// The field that a token `--<flag>` names, if any; its value is the next token.
pub open spec fn bare_flag_of(t: Seq<char>) -> Option<Field> {
    if t.len() >= 2 && t[0] == '-' && t[1] == '-' && find_char(t, '=', 0) == t.len() {
        field_named(t.skip(2))
    } else {
        None
    }
}

/// Set field `f` to `v` in the slots `ov`, unless it is set already.
pub open spec fn set_slot(ov: Seq<Option<Seq<char>>>, f: Field, v: Seq<char>) -> Result<Seq<Option<Seq<char>>>, ConfigError> {
    if ov[f.spec_position()] is Some {
        Err(ConfigError::DuplicateArgument { field: f })
    } else {
        Ok(ov.update(f.spec_position(), Some(v)))
    }
}

/// The slots `ov` with the values that the override tokens set, read from
/// the first token on: either `--<flag>=<value>`, or `--<flag>` followed by
/// the value as a token of its own. An unknown token, a flag without a
/// value, or a field set twice is an error.
pub open spec fn overrides_from(tokens: Seq<Seq<char>>, ov: Seq<Option<Seq<char>>>) -> Result<Seq<Option<Seq<char>>>, ConfigError>
    decreases tokens.len(),
{
    if tokens.len() == 0 {
        Ok(ov)
    } else {
        match override_of(tokens[0]) {
            Some((f, v)) => match set_slot(ov, f, v) {
                Ok(next) => overrides_from(tokens.skip(1), next),
                Err(e) => Err(e),
            },
            None => match bare_flag_of(tokens[0]) {
                None => Err(ConfigError::UnknownArgument),
                Some(f) => if tokens.len() < 2 {
                    Err(ConfigError::MissingValue { field: f })
                } else {
                    match set_slot(ov, f, tokens[1]) {
                        Ok(next) => overrides_from(tokens.skip(2), next),
                        Err(e) => Err(e),
                    }
                },
            },
        }
    }
}

/// The values that the override tokens set, one slot per field in
/// declaration order.
pub open spec fn overrides_of(tokens: Seq<Seq<char>>) -> Result<Seq<Option<Seq<char>>>, ConfigError> {
    overrides_from(tokens, no_overrides())
}

/// The override tokens of an argument list: all but the first, which names
/// the program.
pub open spec fn override_tokens(args: Seq<&str>) -> Seq<Seq<char>> {
    if args.len() == 0 {
        Seq::empty()
    } else {
        args.skip(1).map_values(|a: &str| a@)
    }
}

/// The value of the variable `name` in `env`: that of its first entry.
pub open spec fn env_value(env: Seq<(Seq<char>, Seq<char>)>, name: Seq<char>) -> Option<Seq<char>>
    decreases env.len(),
{
    if env.len() == 0 {
        None
    } else if env[0].0 == name {
        Some(env[0].1)
    } else {
        env_value(env.drop_first(), name)
    }
}

/// An environment as pairs of names and values.
pub open spec fn env_view(env: Seq<(&str, &str)>) -> Seq<(Seq<char>, Seq<char>)> {
    env.map_values(|p: (&str, &str)| (p.0@, p.1@))
}

/// An optional string as an optional sequence of characters.
pub open spec fn opt_view(o: Option<&str>) -> Option<Seq<char>> {
    match o {
        Some(s) => Some(s@),
        None => None,
    }
}

/// Field slots as optional sequences of characters.
pub open spec fn slots_view(ov: Seq<Option<&str>>) -> Seq<Option<Seq<char>>> {
    ov.map_values(|o: Option<&str>| opt_view(o))
}

/// The raw text of field `f`: its override, else its environment variable.
pub open spec fn raw_value(
    ov: Seq<Option<Seq<char>>>,
    env: Seq<(Seq<char>, Seq<char>)>,
    f: Field,
) -> Option<Seq<char>> {
    if ov[f.spec_position()] is Some {
        ov[f.spec_position()]
    } else {
        env_value(env, f.spec_env_var())
    }
}

/// An integer field: its default where no text is given.
pub open spec fn u64_field(raw: Option<Seq<char>>, f: Field, default: u64) -> Result<u64, ConfigError> {
    match raw {
        None => Ok(default),
        Some(s) => match decimal_of(s) {
            Some(n) => Ok(n),
            None => Err(ConfigError::InvalidValue { field: f, error: ParseError::NotAnInteger }),
        },
    }
}

/// The snapshot policy field: its default where no text is given.
pub open spec fn snapshot_policy_field(raw: Option<Seq<char>>) -> Result<SnapshotPolicy, ConfigError> {
    match raw {
        None => Ok(SnapshotPolicy::LogsSinceLast(DEFAULT_SNAPSHOT_LOGS_SINCE_LAST)),
        Some(s) => match snapshot_policy_of(s) {
            Ok(p) => Ok(p),
            Err(e) => Err(ConfigError::InvalidValue { field: Field::SnapshotPolicy, error: e }),
        },
    }
}

/// The snapshot chunk size field, a byte size: its default where no text is given.
pub open spec fn chunk_size_field(raw: Option<Seq<char>>) -> Result<u64, ConfigError> {
    match raw {
        None => Ok(DEFAULT_SNAPSHOT_MAX_CHUNK_SIZE),
        Some(s) => match byte_count_of(byte_size_of(s)) {
            Ok(n) => Ok(n),
            Err(e) => Err(ConfigError::InvalidValue { field: Field::SnapshotMaxChunkSize, error: e }),
        },
    }
}

/// The cluster name field, taken as it is written: its default where no text is given.
pub open spec fn cluster_name_field(raw: Option<Seq<char>>) -> Seq<char> {
    match raw {
        None => default_view().cluster_name,
        Some(s) => s,
    }
}

/// `c` if it is valid, else the first invariant that it breaks.
pub open spec fn validated(c: ConfigView) -> Result<ConfigView, ConfigError> {
    match validation_error(c) {
        Some(e) => Err(e),
        None => Ok(c),
    }
}

/// The configuration that the field slots and the environment give: each
/// field read from its raw text, or at its default; the first field, in
/// declaration order, whose text cannot be read is the error; then validated.
pub open spec fn resolved(ov: Seq<Option<Seq<char>>>, env: Seq<(Seq<char>, Seq<char>)>) -> Result<ConfigView, ConfigError> {
    let min = u64_field(raw_value(ov, env, Field::ElectionTimeoutMin), Field::ElectionTimeoutMin, DEFAULT_ELECTION_TIMEOUT_MIN);
    let max = u64_field(raw_value(ov, env, Field::ElectionTimeoutMax), Field::ElectionTimeoutMax, DEFAULT_ELECTION_TIMEOUT_MAX);
    let heartbeat = u64_field(raw_value(ov, env, Field::HeartbeatInterval), Field::HeartbeatInterval, DEFAULT_HEARTBEAT_INTERVAL);
    let install = u64_field(raw_value(ov, env, Field::InstallSnapshotTimeout), Field::InstallSnapshotTimeout, DEFAULT_INSTALL_SNAPSHOT_TIMEOUT);
    let payload = u64_field(raw_value(ov, env, Field::MaxPayloadEntries), Field::MaxPayloadEntries, DEFAULT_MAX_PAYLOAD_ENTRIES);
    let lag = u64_field(raw_value(ov, env, Field::ReplicationLagThreshold), Field::ReplicationLagThreshold, DEFAULT_REPLICATION_LAG_THRESHOLD);
    let policy = snapshot_policy_field(raw_value(ov, env, Field::SnapshotPolicy));
    let chunk = chunk_size_field(raw_value(ov, env, Field::SnapshotMaxChunkSize));
    let keep = u64_field(raw_value(ov, env, Field::MaxAppliedLogToKeep), Field::MaxAppliedLogToKeep, DEFAULT_MAX_APPLIED_LOG_TO_KEEP);
    if let Err(e) = min {
        Err(e)
    } else if let Err(e) = max {
        Err(e)
    } else if let Err(e) = heartbeat {
        Err(e)
    } else if let Err(e) = install {
        Err(e)
    } else if let Err(e) = payload {
        Err(e)
    } else if let Err(e) = lag {
        Err(e)
    } else if let Err(e) = policy {
        Err(e)
    } else if let Err(e) = chunk {
        Err(e)
    } else if let Err(e) = keep {
        Err(e)
    } else {
        validated(ConfigView {
            cluster_name: cluster_name_field(raw_value(ov, env, Field::ClusterName)),
            election_timeout_min: min->Ok_0,
            election_timeout_max: max->Ok_0,
            heartbeat_interval: heartbeat->Ok_0,
            install_snapshot_timeout: install->Ok_0,
            max_payload_entries: payload->Ok_0,
            replication_lag_threshold: lag->Ok_0,
            snapshot_policy: policy->Ok_0,
            snapshot_max_chunk_size: chunk->Ok_0,
            max_applied_log_to_keep: keep->Ok_0,
        })
    }
}

/// The configuration that override tokens and an environment give.
pub open spec fn built(tokens: Seq<Seq<char>>, env: Seq<(Seq<char>, Seq<char>)>) -> Result<ConfigView, ConfigError> {
    match overrides_of(tokens) {
        Err(e) => Err(e),
        Ok(ov) => resolved(ov, env),
    }
}

/// The field whose flag is `name`, if any.
pub fn field_of_flag(name: &str) -> (r: Option<Field>)
    ensures
        r == field_named(name@),
{
    if str_equal(name, Field::ClusterName.flag()) {
        Some(Field::ClusterName)
    } else if str_equal(name, Field::ElectionTimeoutMin.flag()) {
        Some(Field::ElectionTimeoutMin)
    } else if str_equal(name, Field::ElectionTimeoutMax.flag()) {
        Some(Field::ElectionTimeoutMax)
    } else if str_equal(name, Field::HeartbeatInterval.flag()) {
        Some(Field::HeartbeatInterval)
    } else if str_equal(name, Field::InstallSnapshotTimeout.flag()) {
        Some(Field::InstallSnapshotTimeout)
    } else if str_equal(name, Field::MaxPayloadEntries.flag()) {
        Some(Field::MaxPayloadEntries)
    } else if str_equal(name, Field::ReplicationLagThreshold.flag()) {
        Some(Field::ReplicationLagThreshold)
    } else if str_equal(name, Field::SnapshotPolicy.flag()) {
        Some(Field::SnapshotPolicy)
    } else if str_equal(name, Field::SnapshotMaxChunkSize.flag()) {
        Some(Field::SnapshotMaxChunkSize)
    } else if str_equal(name, Field::MaxAppliedLogToKeep.flag()) {
        Some(Field::MaxAppliedLogToKeep)
    } else {
        None
    }
}

/// Split an override token `--<flag>=<value>` into its field and value.
pub fn split_override<'a>(t: &'a str) -> (r: Option<(Field, &'a str)>)
    ensures
        r is None <==> override_of(t@) is None,
        r matches Some((f, v)) ==> override_of(t@) == Some((f, v@)),
{
    let n = t.unicode_len();
    if n < 2 || t.get_char(0) != '-' || t.get_char(1) != '-' {
        return None;
    }
    assert(find_char(t@, '=', 0) == find_char(t@, '=', 1));
    assert(find_char(t@, '=', 1) == find_char(t@, '=', 2));
    let mut k: usize = 2;
    while k < n && t.get_char(k) != '='
        invariant
            2 <= k <= n,
            n == t@.len(),
            find_char(t@, '=', 0) == find_char(t@, '=', k as int),
        decreases n - k,
    {
        k = k + 1;
    }
    if k == n {
        return None;
    }
    let name = t.substring_char(2, k);
    match field_of_flag(name) {
        None => None,
        Some(f) => {
            let value = t.substring_char(k + 1, n);
            assert(value@ =~= t@.skip(k + 1));
            Some((f, value))
        },
    }
}

/// The field that a token `--<flag>` names, if any.
pub fn bare_flag(t: &str) -> (r: Option<Field>)
    ensures
        r == bare_flag_of(t@),
{
    let n = t.unicode_len();
    if n < 2 || t.get_char(0) != '-' || t.get_char(1) != '-' {
        return None;
    }
    assert(find_char(t@, '=', 0) == find_char(t@, '=', 1));
    assert(find_char(t@, '=', 1) == find_char(t@, '=', 2));
    let mut k: usize = 2;
    while k < n
        invariant
            2 <= k <= n,
            n == t@.len(),
            find_char(t@, '=', 0) == find_char(t@, '=', k as int),
        decreases n - k,
    {
        if t.get_char(k) == '=' {
            return None;
        }
        k = k + 1;
    }
    let name = t.substring_char(2, n);
    assert(name@ =~= t@.skip(2));
    field_of_flag(name)
}

/// Read the override tokens of `args` (all but the first, which names the
/// program) into one slot per field.
pub fn parse_overrides<'a>(args: &[&'a str]) -> (r: Result<Vec<Option<&'a str>>, ConfigError>)
    ensures
        match r {
            Ok(ov) => ov@.len() == NUM_FIELDS && overrides_of(override_tokens(args@)) == Ok::<
                _,
                ConfigError,
            >(slots_view(ov@)),
            Err(e) => overrides_of(override_tokens(args@)) == Err::<Seq<Option<Seq<char>>>, _>(e),
        },
{
    let ghost tokens = override_tokens(args@);
    let mut ov: Vec<Option<&'a str>> = Vec::new();
    let mut j: usize = 0;
    while j < NUM_FIELDS
        invariant
            j <= NUM_FIELDS,
            ov@.len() == j,
            forall|i: int| 0 <= i < j ==> ov@[i] is None,
        decreases NUM_FIELDS - j,
    {
        ov.push(None);
        j = j + 1;
    }
    assert(slots_view(ov@) =~= no_overrides());
    if args.len() == 0 {
        return Ok(ov);
    }
    assert(tokens.skip(0) =~= tokens);
    let mut i: usize = 1;
    while i < args.len()
        invariant
            1 <= i <= args@.len(),
            tokens == override_tokens(args@),
            tokens.len() == args@.len() - 1,
            forall|k: int| 0 <= k < tokens.len() ==> #[trigger] tokens[k] == args@[k + 1]@,
            ov@.len() == NUM_FIELDS,
            overrides_of(tokens) == overrides_from(tokens.skip(i - 1), slots_view(ov@)),
        decreases args.len() - i,
    {
        let ghost rest = tokens.skip(i - 1);
        let t = args[i];
        assert(rest[0] == t@);
        let (f, v, next) = match split_override(t) {
            Some((f, v)) => (f, v, i + 1),
            None => match bare_flag(t) {
                None => return Err(ConfigError::UnknownArgument),
                Some(f) => {
                    if i + 1 >= args.len() {
                        return Err(ConfigError::MissingValue { field: f });
                    }
                    assert(rest[1] == args@[i + 1]@);
                    (f, args[i + 1], i + 2)
                },
            },
        };
        let p = f.position();
        if ov[p].is_some() {
            return Err(ConfigError::DuplicateArgument { field: f });
        }
        let ghost before = ov@;
        ov.set(p, Some(v));
        assert(slots_view(ov@) =~= slots_view(before).update(p as int, Some(v@)));
        assert(rest.skip(next - i) =~= tokens.skip(next - 1));
        i = next;
    }
    assert(tokens.skip(i - 1) =~= Seq::<Seq<char>>::empty());
    Ok(ov)
}

/// The value of the variable `name` in `env`: that of its first entry.
pub fn env_lookup<'a>(env: &[(&'a str, &'a str)], name: &str) -> (r: Option<&'a str>)
    ensures
        opt_view(r) == env_value(env_view(env@), name@),
{
    let ghost ev = env_view(env@);
    assert(ev.skip(0) =~= ev);
    let mut i: usize = 0;
    while i < env.len()
        invariant
            i <= env@.len(),
            ev == env_view(env@),
            env_value(ev, name@) == env_value(ev.skip(i as int), name@),
        decreases env.len() - i,
    {
        let (key, value) = env[i];
        assert(ev.skip(i as int)[0] == (key@, value@));
        if str_equal(key, name) {
            return Some(value);
        }
        assert(ev.skip(i as int).drop_first() =~= ev.skip(i + 1));
        i = i + 1;
    }
    assert(ev.skip(i as int) =~= Seq::<(Seq<char>, Seq<char>)>::empty());
    None
}

/// The raw text of field `f`: its override, else its environment variable.
fn raw_text<'a>(ov: &Vec<Option<&'a str>>, env: &[(&'a str, &'a str)], f: Field) -> (r: Option<&'a str>)
    requires
        ov@.len() == NUM_FIELDS,
    ensures
        opt_view(r) == raw_value(slots_view(ov@), env_view(env@), f),
{
    let p = f.position();
    match ov[p] {
        Some(s) => Some(s),
        None => env_lookup(env, f.env_var()),
    }
}

/// Read an integer field from its raw text, or take its default.
fn u64_value(raw: Option<&str>, f: Field, default: u64) -> (r: Result<u64, ConfigError>)
    ensures
        r == u64_field(opt_view(raw), f, default),
{
    match raw {
        None => Ok(default),
        Some(s) => match parse_u64(s) {
            Some(n) => Ok(n),
            None => Err(ConfigError::InvalidValue { field: f, error: ParseError::NotAnInteger }),
        },
    }
}

/// With no override token and no environment variable of any field, the
/// build gives exactly the defaults.
pub proof fn lemma_no_sources_give_defaults(args: Seq<&str>, env: Seq<(Seq<char>, Seq<char>)>)
    requires
        args.len() <= 1,
        forall|f: Field| env_value(env, #[trigger] f.spec_env_var()) is None,
    ensures
        built(override_tokens(args), env) == Ok::<_, ConfigError>(default_view()),
{
    assert(override_tokens(args) =~= Seq::<Seq<char>>::empty());
    assert(env_value(env, Field::ClusterName.spec_env_var()) is None);
    assert(env_value(env, Field::ElectionTimeoutMin.spec_env_var()) is None);
    assert(env_value(env, Field::ElectionTimeoutMax.spec_env_var()) is None);
    assert(env_value(env, Field::HeartbeatInterval.spec_env_var()) is None);
    assert(env_value(env, Field::InstallSnapshotTimeout.spec_env_var()) is None);
    assert(env_value(env, Field::MaxPayloadEntries.spec_env_var()) is None);
    assert(env_value(env, Field::ReplicationLagThreshold.spec_env_var()) is None);
    assert(env_value(env, Field::SnapshotPolicy.spec_env_var()) is None);
    assert(env_value(env, Field::SnapshotMaxChunkSize.spec_env_var()) is None);
    assert(env_value(env, Field::MaxAppliedLogToKeep.spec_env_var()) is None);
    assert(resolved(no_overrides(), env) == Ok::<_, ConfigError>(default_view()));
}

/// Whatever the sources, a configuration that the build gives meets every
/// invariant.
pub proof fn lemma_built_is_valid(tokens: Seq<Seq<char>>, env: Seq<(Seq<char>, Seq<char>)>)
    ensures
        built(tokens, env) matches Ok(c) ==> is_valid(c),
{
}

impl Config {
    /// Build a configuration from the explicit overrides in `args` (all but
    /// the first token, which names the program), the environment `env` and
    /// the defaults, in that order of precedence, and validate it.
    ///
    /// Each override is written `--<flag>=<value>`, where `flag` is the
    /// field's name in kebab case; its environment variable is the field's
    /// name in upper case, prefixed `RAFT_`.
    pub fn build_with_env(args: &[&str], env: &[(&str, &str)]) -> (r: Result<Config, ConfigError>)
        ensures
            match r {
                Ok(c) => built(override_tokens(args@), env_view(env@)) == Ok::<_, ConfigError>(c@),
                Err(e) => built(override_tokens(args@), env_view(env@)) == Err::<ConfigView, _>(e),
            },
    {
        let ov = match parse_overrides(args) {
            Ok(ov) => ov,
            Err(e) => return Err(e),
        };
        let ghost slots = slots_view(ov@);
        let ghost ev = env_view(env@);
        let election_timeout_min = match u64_value(raw_text(&ov, env, Field::ElectionTimeoutMin), Field::ElectionTimeoutMin, DEFAULT_ELECTION_TIMEOUT_MIN) {
            Ok(n) => n,
            Err(e) => return Err(e),
        };
        let election_timeout_max = match u64_value(raw_text(&ov, env, Field::ElectionTimeoutMax), Field::ElectionTimeoutMax, DEFAULT_ELECTION_TIMEOUT_MAX) {
            Ok(n) => n,
            Err(e) => return Err(e),
        };
        let heartbeat_interval = match u64_value(raw_text(&ov, env, Field::HeartbeatInterval), Field::HeartbeatInterval, DEFAULT_HEARTBEAT_INTERVAL) {
            Ok(n) => n,
            Err(e) => return Err(e),
        };
        let install_snapshot_timeout = match u64_value(raw_text(&ov, env, Field::InstallSnapshotTimeout), Field::InstallSnapshotTimeout, DEFAULT_INSTALL_SNAPSHOT_TIMEOUT) {
            Ok(n) => n,
            Err(e) => return Err(e),
        };
        let max_payload_entries = match u64_value(raw_text(&ov, env, Field::MaxPayloadEntries), Field::MaxPayloadEntries, DEFAULT_MAX_PAYLOAD_ENTRIES) {
            Ok(n) => n,
            Err(e) => return Err(e),
        };
        let replication_lag_threshold = match u64_value(raw_text(&ov, env, Field::ReplicationLagThreshold), Field::ReplicationLagThreshold, DEFAULT_REPLICATION_LAG_THRESHOLD) {
            Ok(n) => n,
            Err(e) => return Err(e),
        };
        let snapshot_policy = match raw_text(&ov, env, Field::SnapshotPolicy) {
            None => SnapshotPolicy::LogsSinceLast(DEFAULT_SNAPSHOT_LOGS_SINCE_LAST),
            Some(s) => match parse_snapshot_policy(s) {
                Ok(p) => p,
                Err(e) => return Err(ConfigError::InvalidValue { field: Field::SnapshotPolicy, error: e }),
            },
        };
        let snapshot_max_chunk_size = match raw_text(&ov, env, Field::SnapshotMaxChunkSize) {
            None => DEFAULT_SNAPSHOT_MAX_CHUNK_SIZE,
            Some(s) => match parse_bytes_with_unit(s) {
                Ok(n) => n,
                Err(e) => return Err(ConfigError::InvalidValue { field: Field::SnapshotMaxChunkSize, error: e }),
            },
        };
        let max_applied_log_to_keep = match u64_value(raw_text(&ov, env, Field::MaxAppliedLogToKeep), Field::MaxAppliedLogToKeep, DEFAULT_MAX_APPLIED_LOG_TO_KEEP) {
            Ok(n) => n,
            Err(e) => return Err(e),
        };
        let cluster_name = match raw_text(&ov, env, Field::ClusterName) {
            None => String::from_str("foo"),
            Some(s) => String::from_str(s),
        };
        proof {
            reveal_strlit("foo");
            assert(cluster_name@ =~= cluster_name_field(raw_value(slots, ev, Field::ClusterName)));
        }
        let config = Config {
            cluster_name,
            election_timeout_min,
            election_timeout_max,
            heartbeat_interval,
            install_snapshot_timeout,
            max_payload_entries,
            replication_lag_threshold,
            snapshot_policy,
            snapshot_max_chunk_size,
            max_applied_log_to_keep,
        };
        config.validate()
    }

    /// Build a configuration from the explicit overrides in `args` (all but
    /// the first token, which names the program) and the defaults, with no
    /// environment, and validate it.
    pub fn build(args: &[&str]) -> (r: Result<Config, ConfigError>)
        ensures
            match r {
                Ok(c) => built(override_tokens(args@), Seq::empty()) == Ok::<_, ConfigError>(c@),
                Err(e) => built(override_tokens(args@), Seq::empty()) == Err::<ConfigView, _>(e),
            },
    {
        let env: Vec<(&str, &str)> = Vec::new();
        assert(env_view(env@) =~= Seq::empty());
        Config::build_with_env(args, env.as_slice())
    }
}

} // verus!
