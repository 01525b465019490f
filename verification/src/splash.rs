//! The "connected" banner shown briefly after startup.

use vstd::prelude::*;
use std::time::Instant;

verus! {

#[verifier::external_type_specification]
#[verifier::external_body]
pub struct ExInstant(Instant);

/// `Instant::now`: the current time of the monotonic clock.
#[verifier::external_body]
pub(crate) fn instant_now() -> (t: Instant) {
    Instant::now()
}

/// `Instant::elapsed` in nanoseconds: time since `t`. Nothing is claimed of the value, which
/// depends on the clock.
#[verifier::external_body]
pub(crate) fn elapsed_nanos(t: &Instant) -> (n: u128) {
    t.elapsed().as_nanos()
}

/// How long the banner stays before it dismisses itself, in nanoseconds.
pub const SPLASH_DURATION_NANOS: u128 = 2_800_000_000;

/// Whether a banner shown `elapsed_nanos` ago has expired (strictly longer than the duration).
pub fn auto_dismiss_due(elapsed_nanos: u128) -> (b: bool)
    ensures
        b == (elapsed_nanos > SPLASH_DURATION_NANOS),
{
    elapsed_nanos > SPLASH_DURATION_NANOS
}

/// Startup banner: the server it connected to and, when known, the server version.
pub struct StartupSplash {
    pub base_url: String,
    pub server_version: Option<String>,
    pub started: Instant,
}

impl StartupSplash {
    pub fn new(base_url: String, server_version: Option<String>) -> (s: StartupSplash)
        ensures
            s.base_url == base_url,
            s.server_version == server_version,
    {
        StartupSplash { base_url, server_version, started: instant_now() }
    }

    /// Whether the banner has been shown long enough (see `auto_dismiss_due`).
    pub fn should_auto_dismiss(&self) -> (b: bool) {
        let ns = elapsed_nanos(&self.started);
        auto_dismiss_due(ns)
    }

    /// The version line of the banner.
    pub fn version_line(&self) -> (line: String)
        ensures
            line@ == match self.server_version {
                Some(v) => "RomM server version: "@ + v@,
                None => "Connected (heartbeat version unavailable)"@,
            },
    {
        match &self.server_version {
            Some(v) => crate::text::concat("RomM server version: ", v.as_str()),
            None => crate::text::string_of("Connected (heartbeat version unavailable)"),
        }
    }
}

} // verus!
