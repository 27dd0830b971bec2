use vstd::prelude::*;

verus! {

/// Configuration for one monitoring session. Loaded once before the
/// monitor starts; the channel list is fixed for the session.
pub struct Settings {
    pub twitch_client_id: String,
    pub twitch_client_secret: String,
    pub streamers: Vec<String>,
    pub check_interval_seconds: u64,
}

impl Settings {
    /// A settings value is well formed when its poll interval is positive.
    pub open spec fn wf(self) -> bool {
        self.check_interval_seconds > 0
    }

    /// Builds a settings value, substituting the default poll interval
    /// when none was configured.
    pub fn new(
        twitch_client_id: String,
        twitch_client_secret: String,
        streamers: Vec<String>,
        check_interval_seconds: Option<u64>,
    ) -> (r: Settings)
        requires
            check_interval_seconds matches Some(n) ==> n > 0,
        ensures
            r.wf(),
            r.twitch_client_id == twitch_client_id,
            r.twitch_client_secret == twitch_client_secret,
            r.streamers == streamers,
            r.check_interval_seconds == match check_interval_seconds {
                Some(n) => n,
                None => 60u64,
            },
    {
        let interval: u64 = match check_interval_seconds {
            Some(n) => n,
            None => default_check_interval(),
        };
        Settings {
            twitch_client_id,
            twitch_client_secret,
            streamers,
            check_interval_seconds: interval,
        }
    }
}

/// The poll interval used when the configuration does not name one.
pub fn default_check_interval() -> (r: u64)
    ensures
        r == 60,
{
    60
}

} // verus!
