//! Transport parameters of an endpoint, and their form for the transport.

use std::time::Duration;
use vstd::prelude::*;

verus! {

/// Silence after which a server pings its peer unless told otherwise, in
/// milliseconds.
pub const KEEP_ALIVE_INTERVAL_MS: u64 = 5000;

/// How an endpoint makes sure that a connection whose peer has gone silent is
/// given up in the end. An endpoint has exactly one of the two.
#[derive(Clone, Copy, Debug, PartialEq, Eq, Structural)]
pub enum Liveness {
    /// Ping the peer after this many milliseconds of silence. A peer that no
    /// longer answers then runs into the transport's own idle timeout.
    KeepAlive { interval_ms: u64 },
    /// Give the connection up after this many milliseconds of silence.
    IdleTimeout { timeout_ms: u32 },
}

/// The transport parameters that this library sets.
#[derive(Clone, Copy, Debug, PartialEq, Eq, Structural)]
pub struct TransportParams {
    /// How many unidirectional streams the peer may have open at a time.
    pub max_concurrent_uni_streams: u32,
    /// How silent connections are given up.
    pub liveness: Liveness,
}

impl Liveness {
    /// The milliseconds of silence after which the mechanism acts.
    pub open spec fn period_ms(self) -> nat {
        match self {
            Liveness::KeepAlive { interval_ms } => interval_ms as nat,
            Liveness::IdleTimeout { timeout_ms } => timeout_ms as nat,
        }
    }

    /// A mechanism is in force when its period is not zero: after no silence
    /// at all nothing can act.
    pub open spec fn spec_in_force(self) -> bool {
        self.period_ms() > 0
    }

    /// Whether the mechanism is in force.
    #[verifier::when_used_as_spec(spec_in_force)]
    pub fn in_force(self) -> (b: bool)
        ensures
            b == self.spec_in_force(),
    {
        match self {
            Liveness::KeepAlive { interval_ms } => interval_ms > 0,
            Liveness::IdleTimeout { timeout_ms } => timeout_ms > 0,
        }
    }
}

impl TransportParams {
    /// The parameters of a server with the given liveness mechanism: the
    /// peer may open no unidirectional stream.
    pub open spec fn spec_server(liveness: Liveness) -> TransportParams {
        TransportParams { max_concurrent_uni_streams: 0, liveness }
    }

    /// The parameters of a server with the given liveness mechanism.
    #[verifier::when_used_as_spec(spec_server)]
    pub fn server(liveness: Liveness) -> (params: TransportParams)
        ensures
            params == TransportParams::spec_server(liveness),
    {
        TransportParams { max_concurrent_uni_streams: 0, liveness }
    }

    /// Parameters fit a server when they admit no unidirectional stream and
    /// their liveness mechanism is in force.
    pub open spec fn fits_server(self) -> bool {
        self.max_concurrent_uni_streams == 0 && self.liveness.in_force()
    }
}

/// Declares `quinn::TransportConfig`, whose values are opaque here.
#[verifier::external_type_specification]
#[verifier::external_body]
pub struct ExTransportConfig(quinn::TransportConfig);

/// Idle timeout of the transport where none is set, in milliseconds.
pub const DEFAULT_IDLE_TIMEOUT_MS: u32 = 30_000;

/// Of what a transport configuration holds, the part that this library sets
/// or leaves as it finds it.
pub struct TransportSettings {
    /// How many unidirectional streams the peer may have open at a time.
    pub max_concurrent_uni_streams: nat,
    /// Milliseconds of silence after which the peer is pinged, or `None`
    /// where it is never pinged.
    pub keep_alive_interval_ms: Option<nat>,
    /// Milliseconds of silence after which the connection is given up, or
    /// `None` where it never is.
    pub max_idle_timeout_ms: Option<nat>,
}

/// The settings that `config` holds.
pub uninterp spec fn transport_settings(config: quinn::TransportConfig) -> TransportSettings;

/// The settings of the transport configuration for `params`: the stream
/// limit of `params` and its one liveness mechanism, the other mechanism as
/// the transport has it where nothing is set. With a keep-alive that is the
/// transport's own idle timeout, with an idle timeout no keep-alive.
pub open spec fn settings_for(params: TransportParams) -> TransportSettings {
    TransportSettings {
        max_concurrent_uni_streams: params.max_concurrent_uni_streams as nat,
        keep_alive_interval_ms: match params.liveness {
            Liveness::KeepAlive { interval_ms } => Some(interval_ms as nat),
            Liveness::IdleTimeout { .. } => None,
        },
        max_idle_timeout_ms: match params.liveness {
            Liveness::KeepAlive { .. } => Some(DEFAULT_IDLE_TIMEOUT_MS as nat),
            Liveness::IdleTimeout { timeout_ms } => Some(timeout_ms as nat),
        },
    }
}

/// Calls `quinn::TransportConfig::default`.
///
/// Trusted: by default the peer is never pinged, and a connection is given
/// up after thirty seconds of silence. Nothing is claimed of the default
/// stream limit.
#[verifier::external_body]
fn default_transport_config() -> (config: quinn::TransportConfig)
    ensures
        transport_settings(config).keep_alive_interval_ms is None,
        transport_settings(config).max_idle_timeout_ms == Some(DEFAULT_IDLE_TIMEOUT_MS as nat),
{
    quinn::TransportConfig::default()
}

/// Calls `quinn::TransportConfig::max_concurrent_uni_streams` with `limit`.
///
/// Trusted: the configuration then holds `limit` for the limit of
/// unidirectional streams, and otherwise what it held.
#[verifier::external_body]
fn set_max_concurrent_uni_streams(config: &mut quinn::TransportConfig, limit: u32)
    ensures
        transport_settings(*final(config)) == (TransportSettings {
            max_concurrent_uni_streams: limit as nat,
            ..transport_settings(*old(config))
        }),
{
    config.max_concurrent_uni_streams(quinn::VarInt::from_u32(limit));
}

/// Calls `quinn::TransportConfig::keep_alive_interval` with an interval of
/// `interval_ms` milliseconds.
///
/// Trusted: the configuration then holds that interval for its keep-alive,
/// and otherwise what it held.
#[verifier::external_body]
fn set_keep_alive_interval(config: &mut quinn::TransportConfig, interval_ms: u64)
    ensures
        transport_settings(*final(config)) == (TransportSettings {
            keep_alive_interval_ms: Some(interval_ms as nat),
            ..transport_settings(*old(config))
        }),
{
    config.keep_alive_interval(Some(Duration::from_millis(interval_ms)));
}

/// Calls `quinn::TransportConfig::max_idle_timeout` with a timeout of
/// `timeout_ms` milliseconds.
///
/// Trusted: the configuration then holds that timeout for its idle timeout,
/// and otherwise what it held.
#[verifier::external_body]
fn set_max_idle_timeout(config: &mut quinn::TransportConfig, timeout_ms: u32)
    ensures
        transport_settings(*final(config)) == (TransportSettings {
            max_idle_timeout_ms: Some(timeout_ms as nat),
            ..transport_settings(*old(config))
        }),
{
    config.max_idle_timeout(Some(quinn::VarInt::from_u32(timeout_ms).into()));
}

/// The transport's own configuration for `params`: its defaults, with the
/// stream limit and the one liveness mechanism of `params` set, so that it
/// holds the settings that [`settings_for`] gives.
pub(crate) fn transport_config(params: &TransportParams) -> (config: quinn::TransportConfig)
    ensures
        transport_settings(config) == settings_for(*params),
{
    let mut config = default_transport_config();
    set_max_concurrent_uni_streams(&mut config, params.max_concurrent_uni_streams);
    match params.liveness {
        Liveness::KeepAlive { interval_ms } => set_keep_alive_interval(&mut config, interval_ms),
        Liveness::IdleTimeout { timeout_ms } => set_max_idle_timeout(&mut config, timeout_ms),
    }
    config
}

} // verus!
