//! Deployment configuration: what the three environment keys decide.
use vstd::prelude::*;
use crate::text::{is_blank, lemma_trim_is_empty_exactly_when_blank, spec_trim, trim};

verus! {

/// Deployment configuration (env-driven, house convention).
#[derive(Debug, Clone)]
pub struct Config {
    pub bind: String,
    pub hub_id: String,
    pub seed: Option<String>,
}

/// The bind address used when none is configured.
pub const DEFAULT_BIND: &'static str = "127.0.0.1:8397";

/// The hub id used when none is configured.
pub const DEFAULT_HUB_ID: &'static str = "unidpp-hub-1";

/// The seed the keyring runs on when none is declared (seeded-dev mode).
pub const DEV_SEED: &'static str = "unidpp-hub";

/// A configured value that counts: present and not only whitespace.
pub open spec fn counts_as_set(value: Option<String>) -> bool {
    value matches Some(v) && spec_trim(v@).len() > 0
}

/// The value a text setting takes: the configured one where it counts,
/// else the default.
pub open spec fn setting(value: Option<String>, default: Seq<char>) -> Seq<char> {
    if counts_as_set(value) {
        value->0@
    } else {
        default
    }
}

/// The seed a configured value declares: an empty value declares none.
pub open spec fn seed_setting(seed: Option<String>) -> Option<String> {
    match seed {
        Some(s) => if s@.len() > 0 {
            Some(s)
        } else {
            None
        },
        None => None,
    }
}

/// The seed the hub key is derived from.
pub open spec fn spec_key_seed(seed: Option<String>) -> Seq<char> {
    match seed {
        Some(s) => s@,
        None => DEV_SEED@,
    }
}

/// The mode the keyring runs in, by whether a seed is declared.
pub open spec fn spec_keyring_mode(seed: Option<String>) -> Seq<char> {
    if seed is Some {
        "declared-seed"@
    } else {
        "seeded-dev"@
    }
}

fn setting_or(value: Option<String>, default: &'static str) -> (out: String)
    ensures
        out@ == setting(value, default@),
{
    match value {
        Some(v) => {
            let trimmed = trim(v.as_str());
            if trimmed.as_str().is_empty() {
                default.to_owned()
            } else {
                v
            }
        },
        None => default.to_owned(),
    }
}

impl Config {
    /// The environment variables this service consumes, in the order
    /// `bind`, `hub_id`, `seed`. This is the deployment contract: the
    /// served contract document carries these names as
    /// `x-unidpp-env-keys`.
    pub const ENV_KEYS: [&'static str; 3] = [
        "UNIDPP_HUB_BIND",
        "UNIDPP_HUB_ID",
        "UNIDPP_HUB_SEED",
    ];

    /// The configuration the values of the three environment keys give
    /// (`None` where a key is not set). A bind address or hub id that is
    /// blank keeps its default; an empty seed counts as no seed.
    pub fn from_env_values(bind: Option<String>, hub_id: Option<String>, seed: Option<String>) -> (config: Config)
        ensures
            config.bind@ == setting(bind, DEFAULT_BIND@),
            config.hub_id@ == setting(hub_id, DEFAULT_HUB_ID@),
            config.seed == seed_setting(seed),
    {
        let seed = match seed {
            Some(s) => if s.as_str().is_empty() { None } else { Some(s) },
            None => None,
        };
        Config {
            bind: setting_or(bind, DEFAULT_BIND),
            hub_id: setting_or(hub_id, DEFAULT_HUB_ID),
            seed,
        }
    }

    /// The seed the hub key is derived from: the declared seed, else the
    /// development seed.
    pub fn key_seed(&self) -> (seed: &str)
        ensures
            seed@ == spec_key_seed(self.seed),
    {
        match &self.seed {
            Some(s) => s.as_str(),
            None => DEV_SEED,
        }
    }

    /// The keyring mode: `declared-seed` when a seed is declared, else
    /// `seeded-dev`.
    pub fn keyring_mode(&self) -> (mode: &'static str)
        ensures
            mode@ == spec_keyring_mode(self.seed),
    {
        match &self.seed {
            Some(_) => "declared-seed",
            None => "seeded-dev",
        }
    }

    /// The warning the hub gives on every start in seeded-dev mode, and
    /// only then.
    pub fn dev_mode_warning(&self) -> (warning: Option<&'static str>)
        ensures
            warning is Some <==> self.seed is None,
            warning matches Some(w) ==> w@
                == "unidpp-hub: WARNING — keyring runs in seeded-dev mode; production deployments must set UNIDPP_HUB_SEED"@,
    {
        match &self.seed {
            Some(_) => None,
            None => Some(
                "unidpp-hub: WARNING — keyring runs in seeded-dev mode; production deployments must set UNIDPP_HUB_SEED",
            ),
        }
    }
}

/// The message with which a failure to derive the hub key is reported.
pub fn hub_key_error(detail: &str) -> (message: String)
    ensures
        message@ == "hub key: "@ + detail@,
{
    let mut message = "hub key: ".to_owned();
    message.push_str(detail);
    message
}

/// Without a declared seed the keyring runs in seeded-dev mode, says so
/// on start, and derives the hub key from the development seed; with one
/// it runs in declared-seed mode on that seed.
pub proof fn lemma_seeded_dev_exactly_without_seed(seed: Option<String>)
    ensures
        (spec_keyring_mode(seed_setting(seed)) == "seeded-dev"@) <==> (seed is None || seed->0@.len()
            == 0),
        (spec_keyring_mode(seed_setting(seed)) == "declared-seed"@) <==> (seed is Some
            && seed->0@.len() > 0),
        spec_keyring_mode(seed_setting(seed)) == "seeded-dev"@ ==> spec_key_seed(seed_setting(seed))
            == DEV_SEED@,
        spec_keyring_mode(seed_setting(seed)) == "declared-seed"@ ==> spec_key_seed(
            seed_setting(seed),
        ) == seed->0@,
{
    reveal_strlit("seeded-dev");
    reveal_strlit("declared-seed");
    assert("seeded-dev"@ != "declared-seed"@) by {
        assert("seeded-dev"@[0] != "declared-seed"@[0]);
    }
}

/// A configured text value is taken exactly as given whenever it holds a
/// character that is not whitespace, whatever its length; a value that is
/// missing or blank leaves the default.
pub proof fn lemma_setting_takes_a_non_blank_value_as_given(
    value: Option<String>,
    default: Seq<char>,
)
    ensures
        value is Some && !is_blank(value->0@) ==> setting(value, default) == value->0@,
        value is None || is_blank(value->0@) ==> setting(value, default) == default,
{
    if value is Some {
        lemma_trim_is_empty_exactly_when_blank(value->0@);
    }
}

/// A seed is declared exactly when the configured value is present and
/// not empty, and it is then that value, unchanged.
pub proof fn lemma_seed_is_declared_exactly_when_not_empty(seed: Option<String>)
    ensures
        seed_setting(seed) is Some <==> (seed is Some && seed->0@.len() > 0),
        seed_setting(seed) is Some ==> seed_setting(seed) == seed,
{
}

} // verus!
