use vstd::prelude::*;
use crate::settings::Settings;
use crate::tracker::id_set;
use crate::twitch_api::{
    ApiError, ApiErrorV, Stream, StreamV, StreamsRequest, StreamsRequestV, TokenRequest,
    TokenRequestV, TwitchClient, TwitchClientV, User, UserV, UsersRequest, UsersRequestV,
    parse_streams_response, parse_users_response, sp_accept_token, sp_id_query, sp_login_query,
    sp_streams_response, sp_token_request, sp_users_response, streams_view, users_view,
};

verus! {

// The monitor loop's decisions. One polling session is a state
// machine: authenticate, resolve the configured names once, then poll
// on a fixed period, turning each successful snapshot into
// edge-triggered notifications and classifying each failure as
// retry-next-tick, reauthenticate, or fatal. The surrounding program
// owns the timer, the transport and the delivery; it asks `step` what
// to do with each raw outcome and performs the directive it gets back.

/// Why a session ended: by request or because nothing (more) could be
/// monitored, or with the failure to report upward.
pub enum Outcome {
    Clean,
    Failed(ApiError),
}

pub enum OutcomeV {
    Clean,
    Failed(ApiErrorV),
}

impl View for Outcome {
    type V = OutcomeV;

    open spec fn view(&self) -> OutcomeV {
        match self {
            Outcome::Clean => OutcomeV::Clean,
            Outcome::Failed(e) => OutcomeV::Failed(e@),
        }
    }
}

/// Where a session stands. While polling, `ids` is the fixed identifier
/// list resolved at startup and `live` the identifiers believed live:
/// exactly those of the last successful snapshot.
pub enum Phase {
    Authenticating,
    Resolving,
    Polling { ids: Vec<String>, live: Vec<String> },
    Reauthenticating { ids: Vec<String>, live: Vec<String> },
    Terminated { outcome: Outcome },
}

pub enum PhaseV {
    Authenticating,
    Resolving,
    Polling { ids: Seq<Seq<char>>, live: Set<Seq<char>> },
    Reauthenticating { ids: Seq<Seq<char>>, live: Set<Seq<char>> },
    Terminated { outcome: OutcomeV },
}

impl View for Phase {
    type V = PhaseV;

    open spec fn view(&self) -> PhaseV {
        match self {
            Phase::Authenticating => PhaseV::Authenticating,
            Phase::Resolving => PhaseV::Resolving,
            Phase::Polling { ids, live } => PhaseV::Polling {
                ids: ids.deep_view(),
                live: id_set(live.deep_view()),
            },
            Phase::Reauthenticating { ids, live } => PhaseV::Reauthenticating {
                ids: ids.deep_view(),
                live: id_set(live.deep_view()),
            },
            Phase::Terminated { outcome } => PhaseV::Terminated { outcome: outcome@ },
        }
    }
}

/// What one HTTP exchange came to: a response, or no response at all.
pub enum HttpOutcome {
    Response { status: u16, body: String },
    Failed { timeout: bool },
}

pub enum HttpOutcomeV {
    Response { status: u16, body: Seq<char> },
    Failed { timeout: bool },
}

impl View for HttpOutcome {
    type V = HttpOutcomeV;

    open spec fn view(&self) -> HttpOutcomeV {
        match self {
            HttpOutcome::Response { status, body } => HttpOutcomeV::Response {
                status: *status,
                body: body@,
            },
            HttpOutcome::Failed { timeout } => HttpOutcomeV::Failed { timeout: *timeout },
        }
    }
}

/// What the surrounding program reports back: the outcome of the
/// exchange the last directive asked for, or the shutdown signal.
pub enum Event {
    TokenResponse(HttpOutcome),
    UsersResponse(HttpOutcome),
    StreamsResponse(HttpOutcome),
    Shutdown,
}

pub enum EventV {
    TokenResponse(HttpOutcomeV),
    UsersResponse(HttpOutcomeV),
    StreamsResponse(HttpOutcomeV),
    Shutdown,
}

impl View for Event {
    type V = EventV;

    open spec fn view(&self) -> EventV {
        match self {
            Event::TokenResponse(o) => EventV::TokenResponse(o@),
            Event::UsersResponse(o) => EventV::UsersResponse(o@),
            Event::StreamsResponse(o) => EventV::StreamsResponse(o@),
            Event::Shutdown => EventV::Shutdown,
        }
    }
}

/// One notification to deliver: the channel that went live, the name to
/// announce and the category label to show.
pub struct Notification {
    pub channel_id: String,
    pub summary: String,
    pub body: String,
}

pub struct NotificationV {
    pub channel_id: Seq<char>,
    pub summary: Seq<char>,
    pub body: Seq<char>,
}

impl View for Notification {
    type V = NotificationV;

    open spec fn view(&self) -> NotificationV {
        NotificationV { channel_id: self.channel_id@, summary: self.summary@, body: self.body@ }
    }
}

pub open spec fn notifs_view(q: Seq<Notification>) -> Seq<NotificationV> {
    Seq::new(q.len(), |k: int| q[k]@)
}

/// What the surrounding program is asked to do next.
pub enum Directive {
    /// Send the token grant and report its outcome.
    Authenticate(TokenRequest),
    /// Send the user lookup and report its outcome.
    FetchUsers(UsersRequest),
    /// Deliver the notifications, wait out the period, send the
    /// stream-status fetch and report its outcome; the shutdown signal
    /// may preempt the wait.
    Poll { notifications: Vec<Notification>, request: StreamsRequest, wait_seconds: u64 },
    /// The session is over; `outcome` says how it ended.
    Stop,
}

pub enum DirectiveV {
    Authenticate(TokenRequestV),
    FetchUsers(UsersRequestV),
    Poll { notifications: Seq<NotificationV>, request: StreamsRequestV, wait_seconds: u64 },
    Stop,
}

impl View for Directive {
    type V = DirectiveV;

    open spec fn view(&self) -> DirectiveV {
        match self {
            Directive::Authenticate(r) => DirectiveV::Authenticate(r@),
            Directive::FetchUsers(r) => DirectiveV::FetchUsers(r@),
            Directive::Poll { notifications, request, wait_seconds } => DirectiveV::Poll {
                notifications: notifs_view(notifications@),
                request: request@,
                wait_seconds: *wait_seconds,
            },
            Directive::Stop => DirectiveV::Stop,
        }
    }
}

/// How the monitor treats a poll failure.
pub enum ErrorDisposition {
    RetryNextTick,
    Reauthenticate,
    Fatal,
}

/// The classification policy: a timeout or a server-error status is
/// transient and retried on the next tick; a missing or rejected token
/// earns exactly one re-authentication attempt; everything else — a
/// non-timeout transport failure, any other client error, a malformed
/// body — is fatal.
pub open spec fn sp_poll_error_disposition(e: ApiErrorV) -> ErrorDisposition {
    match e {
        ApiErrorV::Transport { timeout } => if timeout {
            ErrorDisposition::RetryNextTick
        } else {
            ErrorDisposition::Fatal
        },
        ApiErrorV::HttpError { status, .. } => if 500 <= status < 600 {
            ErrorDisposition::RetryNextTick
        } else {
            ErrorDisposition::Fatal
        },
        ApiErrorV::MissingToken => ErrorDisposition::Reauthenticate,
        ApiErrorV::DecodeError => ErrorDisposition::Fatal,
    }
}

pub fn poll_error_disposition(e: &ApiError) -> (d: ErrorDisposition)
    ensures
        d == sp_poll_error_disposition(e@),
{
    match e {
        ApiError::Transport { timeout } => if *timeout {
            ErrorDisposition::RetryNextTick
        } else {
            ErrorDisposition::Fatal
        },
        ApiError::HttpError { status, .. } => if 500 <= *status && *status < 600 {
            ErrorDisposition::RetryNextTick
        } else {
            ErrorDisposition::Fatal
        },
        ApiError::MissingToken => ErrorDisposition::Reauthenticate,
        ApiError::DecodeError => ErrorDisposition::Fatal,
    }
}

// ---------------------------------------------------------------------
// The transition relation.

/// The monitor: the API client it drives, the configured names, the
/// poll period, and where the session stands.
pub struct Monitor {
    pub client: TwitchClient,
    pub streamers: Vec<String>,
    pub check_interval_seconds: u64,
    pub phase: Phase,
}

pub struct MonitorV {
    pub client: TwitchClientV,
    pub streamers: Seq<Seq<char>>,
    pub check_interval_seconds: u64,
    pub phase: PhaseV,
}

impl View for Monitor {
    type V = MonitorV;

    open spec fn view(&self) -> MonitorV {
        MonitorV {
            client: self.client@,
            streamers: self.streamers.deep_view(),
            check_interval_seconds: self.check_interval_seconds,
            phase: self.phase@,
        }
    }
}

pub open spec fn with_phase(m: MonitorV, p: PhaseV) -> MonitorV {
    MonitorV {
        client: m.client,
        streamers: m.streamers,
        check_interval_seconds: m.check_interval_seconds,
        phase: p,
    }
}

pub open spec fn with_client(m: MonitorV, c: TwitchClientV, p: PhaseV) -> MonitorV {
    MonitorV {
        client: c,
        streamers: m.streamers,
        check_interval_seconds: m.check_interval_seconds,
        phase: p,
    }
}

/// What a raw exchange outcome means for the token grant.
pub open spec fn sp_token_outcome(c: TwitchClientV, o: HttpOutcomeV) -> (
    TwitchClientV,
    Result<(), ApiErrorV>,
) {
    match o {
        HttpOutcomeV::Response { status, body } => sp_accept_token(c, status, body),
        HttpOutcomeV::Failed { timeout } => (c, Err(ApiErrorV::Transport { timeout })),
    }
}

/// What a raw exchange outcome means for the user lookup.
pub open spec fn sp_users_outcome(o: HttpOutcomeV) -> Result<Seq<UserV>, ApiErrorV> {
    match o {
        HttpOutcomeV::Response { status, body } => sp_users_response(status, body),
        HttpOutcomeV::Failed { timeout } => Err(ApiErrorV::Transport { timeout }),
    }
}

/// What a raw exchange outcome means for the stream-status fetch.
pub open spec fn sp_streams_outcome(o: HttpOutcomeV) -> Result<Seq<StreamV>, ApiErrorV> {
    match o {
        HttpOutcomeV::Response { status, body } => sp_streams_response(status, body),
        HttpOutcomeV::Failed { timeout } => Err(ApiErrorV::Transport { timeout }),
    }
}

/// The identifiers of the resolved channels, in order.
pub open spec fn sp_user_ids(us: Seq<UserV>) -> Seq<Seq<char>> {
    Seq::new(us.len(), |k: int| us[k].id)
}

/// The channel identifiers a snapshot reports live, in order.
pub open spec fn sp_stream_ids(ss: Seq<StreamV>) -> Seq<Seq<char>> {
    Seq::new(ss.len(), |k: int| ss[k].user_id)
}

/// The notifications one snapshot causes, given the identifiers
/// already believed live: one per entry whose channel was not live
/// before and was not already notified this tick, in snapshot order.
pub open spec fn sp_notifs(live: Set<Seq<char>>, ss: Seq<StreamV>, k: int) -> Seq<NotificationV>
    decreases ss.len() - k,
{
    if !(0 <= k < ss.len()) {
        Seq::empty()
    } else {
        let s = ss[k];
        if live.contains(s.user_id) {
            sp_notifs(live, ss, k + 1)
        } else {
            seq![
                NotificationV { channel_id: s.user_id, summary: s.user_name, body: s.game_name },
            ] + sp_notifs(live.insert(s.user_id), ss, k + 1)
        }
    }
}

/// The stream-status fetch to issue while polling `ids`, carrying the
/// notifications of this tick; there is nothing to ask for without a
/// token.
pub open spec fn sp_poll_directive(
    m: MonitorV,
    ids: Seq<Seq<char>>,
    notifs: Seq<NotificationV>,
) -> DirectiveV {
    match m.client.access_token {
        Some(t) => DirectiveV::Poll {
            notifications: notifs,
            request: StreamsRequestV {
                bearer_token: t,
                client_id: m.client.client_id,
                query: sp_id_query(ids),
            },
            wait_seconds: m.check_interval_seconds,
        },
        None => DirectiveV::Stop,
    }
}

/// The directive a phase is waiting on: what the surrounding program
/// should (still) be doing for the monitor in this state.
pub open spec fn sp_current_directive(m: MonitorV) -> DirectiveV {
    match m.phase {
        PhaseV::Authenticating => DirectiveV::Authenticate(sp_token_request(m.client)),
        PhaseV::Reauthenticating { .. } => DirectiveV::Authenticate(sp_token_request(m.client)),
        PhaseV::Resolving => match m.client.access_token {
            Some(t) => DirectiveV::FetchUsers(
                UsersRequestV {
                    bearer_token: t,
                    client_id: m.client.client_id,
                    query: sp_login_query(m.streamers),
                },
            ),
            None => DirectiveV::Stop,
        },
        PhaseV::Polling { ids, .. } => sp_poll_directive(m, ids, Seq::empty()),
        PhaseV::Terminated { .. } => DirectiveV::Stop,
    }
}

/// The whole transition relation: what one event does to the monitor
/// and what it asks for next. An event that does not belong to the
/// current phase changes nothing and re-issues the phase's directive.
pub open spec fn sp_step(m: MonitorV, ev: EventV) -> (MonitorV, DirectiveV) {
    match ev {
        EventV::Shutdown => if m.phase is Terminated {
            (m, DirectiveV::Stop)
        } else {
            (with_phase(m, PhaseV::Terminated { outcome: OutcomeV::Clean }), DirectiveV::Stop)
        },
        EventV::TokenResponse(o) => match m.phase {
            PhaseV::Authenticating => {
                let (c2, res) = sp_token_outcome(m.client, o);
                match res {
                    Ok(_) => if m.streamers.len() == 0 {
                        (
                            with_client(
                                m,
                                c2,
                                PhaseV::Terminated { outcome: OutcomeV::Clean },
                            ),
                            DirectiveV::Stop,
                        )
                    } else {
                        let m2 = with_client(m, c2, PhaseV::Resolving);
                        (m2, sp_current_directive(m2))
                    },
                    Err(e) => (
                        with_client(m, c2, PhaseV::Terminated { outcome: OutcomeV::Failed(e) }),
                        DirectiveV::Stop,
                    ),
                }
            },
            PhaseV::Reauthenticating { ids, live } => {
                let (c2, res) = sp_token_outcome(m.client, o);
                match res {
                    Ok(_) => {
                        let m2 = with_client(m, c2, PhaseV::Polling { ids, live });
                        (m2, sp_poll_directive(m2, ids, Seq::empty()))
                    },
                    Err(e) => (
                        with_client(m, c2, PhaseV::Terminated { outcome: OutcomeV::Failed(e) }),
                        DirectiveV::Stop,
                    ),
                }
            },
            _ => (m, sp_current_directive(m)),
        },
        EventV::UsersResponse(o) => match m.phase {
            PhaseV::Resolving => match sp_users_outcome(o) {
                Ok(us) => if us.len() == 0 {
                    (
                        with_phase(m, PhaseV::Terminated { outcome: OutcomeV::Clean }),
                        DirectiveV::Stop,
                    )
                } else {
                    let ids = sp_user_ids(us);
                    let m2 = with_phase(m, PhaseV::Polling { ids, live: Set::empty() });
                    (m2, sp_poll_directive(m2, ids, Seq::empty()))
                },
                Err(e) => (
                    with_phase(m, PhaseV::Terminated { outcome: OutcomeV::Failed(e) }),
                    DirectiveV::Stop,
                ),
            },
            _ => (m, sp_current_directive(m)),
        },
        EventV::StreamsResponse(o) => match m.phase {
            PhaseV::Polling { ids, live } => match sp_streams_outcome(o) {
                Ok(ss) => {
                    let notifs = sp_notifs(live, ss, 0);
                    let live2 = sp_stream_ids(ss).to_set();
                    let m2 = with_phase(m, PhaseV::Polling { ids, live: live2 });
                    (m2, sp_poll_directive(m2, ids, notifs))
                },
                Err(e) => match sp_poll_error_disposition(e) {
                    ErrorDisposition::RetryNextTick => (m, sp_poll_directive(m, ids, Seq::empty())),
                    ErrorDisposition::Reauthenticate => (
                        with_phase(m, PhaseV::Reauthenticating { ids, live }),
                        DirectiveV::Authenticate(sp_token_request(m.client)),
                    ),
                    ErrorDisposition::Fatal => (
                        with_phase(m, PhaseV::Terminated { outcome: OutcomeV::Failed(e) }),
                        DirectiveV::Stop,
                    ),
                },
            },
            _ => (m, sp_current_directive(m)),
        },
    }
}

// ---------------------------------------------------------------------
// The executable monitor.

/// A copy of an identifier list.
fn clone_ids(v: &Vec<String>) -> (out: Vec<String>)
    ensures
        out@ == v@,
{
    let mut out: Vec<String> = Vec::new();
    let mut k: usize = 0;
    while k < v.len()
        invariant
            k <= v.len(),
            out@ == v@.take(k as int),
        decreases v.len() - k,
    {
        out.push(v[k].clone());
        proof {
            assert(v@.take(k as int).push(v@[k as int]) =~= v@.take(k as int + 1));
        }
        k += 1;
    }
    proof {
        assert(v@.take(v@.len() as int) =~= v@);
    }
    out
}

fn user_ids(us: &Vec<User>) -> (out: Vec<String>)
    ensures
        out.deep_view() == sp_user_ids(users_view(us@)),
{
    let mut out: Vec<String> = Vec::new();
    let mut k: usize = 0;
    while k < us.len()
        invariant
            k <= us.len(),
            out@.len() == k,
            forall|j: int| 0 <= j < k ==> out.deep_view()[j] == us@[j]@.id,
        decreases us.len() - k,
    {
        let ghost out0 = out.deep_view();
        out.push(us[k].id.clone());
        proof {
            assert(out.deep_view() =~= out0.push(us@[k as int].id@));
        }
        k += 1;
    }
    proof {
        assert(out.deep_view() =~= sp_user_ids(users_view(us@)));
    }
    out
}

fn stream_ids(ss: &Vec<Stream>) -> (out: Vec<String>)
    ensures
        out.deep_view() == sp_stream_ids(streams_view(ss@)),
{
    let mut out: Vec<String> = Vec::new();
    let mut k: usize = 0;
    while k < ss.len()
        invariant
            k <= ss.len(),
            out@.len() == k,
            forall|j: int| 0 <= j < k ==> out.deep_view()[j] == ss@[j]@.user_id,
        decreases ss.len() - k,
    {
        let ghost out0 = out.deep_view();
        out.push(ss[k].user_id.clone());
        proof {
            assert(out.deep_view() =~= out0.push(ss@[k as int].user_id@));
        }
        k += 1;
    }
    proof {
        assert(out.deep_view() =~= sp_stream_ids(streams_view(ss@)));
    }
    out
}

/// The notifications of one snapshot, walked from entry `k` with `seen`
/// holding what is live or already notified.
fn compute_notifs(seen: Vec<String>, ss: &Vec<Stream>, k: usize) -> (out: Vec<Notification>)
    requires
        k <= ss@.len(),
    ensures
        notifs_view(out@) == sp_notifs(id_set(seen.deep_view()), streams_view(ss@), k as int),
    decreases ss@.len() - k,
{
    if k == ss.len() {
        let out: Vec<Notification> = Vec::new();
        proof {
            assert(notifs_view(out@) =~= Seq::<NotificationV>::empty());
        }
        return out;
    }
    proof {
        assert(streams_view(ss@)[k as int] == ss@[k as int]@);
    }
    let s = &ss[k];
    if crate::tracker::contains_id(&seen, &s.user_id) {
        compute_notifs(seen, ss, k + 1)
    } else {
        let n = Notification {
            channel_id: s.user_id.clone(),
            summary: s.user_name.clone(),
            body: s.game_name.clone(),
        };
        let ghost seen0 = seen.deep_view();
        let mut seen2 = seen;
        seen2.push(s.user_id.clone());
        proof {
            assert(seen2.deep_view() =~= seen0.push(ss@[k as int]@.user_id));
            crate::tracker::lemma_push_set(seen0, ss@[k as int]@.user_id);
        }
        let rest = compute_notifs(seen2, ss, k + 1);
        let ghost restv = notifs_view(rest@);
        let ghost nv = n@;
        let mut out = rest;
        out.insert(0, n);
        proof {
            assert(notifs_view(out@) =~= seq![nv] + restv);
        }
        out
    }
}

impl Monitor {
    /// A monitor at the start of its session, about to authenticate.
    pub fn new(settings: Settings) -> (m: Monitor)
        ensures
            m@.client.client_id == settings.twitch_client_id@,
            m@.client.client_secret == settings.twitch_client_secret@,
            m@.client.access_token is None,
            m@.streamers == settings.streamers.deep_view(),
            m@.check_interval_seconds == settings.check_interval_seconds,
            m@.phase == PhaseV::Authenticating,
    {
        Monitor {
            client: TwitchClient::new(settings.twitch_client_id, settings.twitch_client_secret),
            streamers: settings.streamers,
            check_interval_seconds: settings.check_interval_seconds,
            phase: Phase::Authenticating,
        }
    }

    /// The directive the current phase is waiting on; the session
    /// starts by performing `current_directive` of a fresh monitor.
    pub fn current_directive(&self) -> (d: Directive)
        ensures
            d@ == sp_current_directive(self@),
    {
        match &self.phase {
            Phase::Authenticating => Directive::Authenticate(self.client.token_request()),
            Phase::Reauthenticating { .. } => Directive::Authenticate(self.client.token_request()),
            Phase::Resolving => match &self.client.access_token {
                Some(t) => {
                    let r = UsersRequest {
                        bearer_token: t.clone(),
                        client_id: self.client.client_id.clone(),
                        query: crate::twitch_api::login_pairs(&self.streamers),
                    };
                    proof {
                        assert(r@.query =~= sp_login_query(self.streamers.deep_view()));
                    }
                    Directive::FetchUsers(r)
                },
                None => Directive::Stop,
            },
            Phase::Polling { ids, .. } => match &self.client.access_token {
                Some(t) => {
                    let r = StreamsRequest {
                        bearer_token: t.clone(),
                        client_id: self.client.client_id.clone(),
                        query: crate::twitch_api::id_pairs(ids),
                    };
                    proof {
                        assert(r@.query =~= sp_id_query(ids.deep_view()));
                        assert(notifs_view(Seq::<Notification>::empty()) =~= Seq::<
                            NotificationV,
                        >::empty());
                    }
                    Directive::Poll {
                        notifications: Vec::new(),
                        request: r,
                        wait_seconds: self.check_interval_seconds,
                    }
                },
                None => Directive::Stop,
            },
            Phase::Terminated { .. } => Directive::Stop,
        }
    }

    /// Performs one transition, exactly as `sp_step` says: consumes the
    /// outcome of the exchange the last directive asked for and hands
    /// back what to do next.
    pub fn step(&mut self, event: Event) -> (d: Directive)
        ensures
            final(self)@ == sp_step(old(self)@, event@).0,
            d@ == sp_step(old(self)@, event@).1,
    {
        match event {
            Event::Shutdown => {
                match &self.phase {
                    Phase::Terminated { .. } => {},
                    _ => {
                        self.phase = Phase::Terminated { outcome: Outcome::Clean };
                    },
                }
                Directive::Stop
            },
            Event::TokenResponse(o) => {
                match &self.phase {
                    Phase::Authenticating => {
                        let res = self.apply_token_outcome(o);
                        match res {
                            Ok(_) => {
                                if self.streamers.len() == 0 {
                                    self.phase = Phase::Terminated { outcome: Outcome::Clean };
                                    Directive::Stop
                                } else {
                                    self.phase = Phase::Resolving;
                                    self.current_directive()
                                }
                            },
                            Err(e) => {
                                self.phase = Phase::Terminated { outcome: Outcome::Failed(e) };
                                Directive::Stop
                            },
                        }
                    },
                    Phase::Reauthenticating { ids, live } => {
                        let ids = clone_ids(ids);
                        let live = clone_ids(live);
                        let res = self.apply_token_outcome(o);
                        match res {
                            Ok(_) => {
                                self.phase = Phase::Polling { ids, live };
                                self.current_directive()
                            },
                            Err(e) => {
                                self.phase = Phase::Terminated { outcome: Outcome::Failed(e) };
                                Directive::Stop
                            },
                        }
                    },
                    _ => self.current_directive(),
                }
            },
            Event::UsersResponse(o) => {
                match &self.phase {
                    Phase::Resolving => {
                        let res = users_outcome(o);
                        match res {
                            Ok(us) => {
                                if us.len() == 0 {
                                    self.phase = Phase::Terminated { outcome: Outcome::Clean };
                                    Directive::Stop
                                } else {
                                    let ids = user_ids(&us);
                                    let live_init: Vec<String> = Vec::new();
                                    proof {
                                        assert(live_init.deep_view() =~= Seq::<Seq<char>>::empty());
                                        assert(id_set(live_init.deep_view()) =~= Set::<
                                            Seq<char>,
                                        >::empty());
                                    }
                                    self.phase = Phase::Polling { ids, live: live_init };
                                    self.current_directive()
                                }
                            },
                            Err(e) => {
                                self.phase = Phase::Terminated { outcome: Outcome::Failed(e) };
                                Directive::Stop
                            },
                        }
                    },
                    _ => self.current_directive(),
                }
            },
            Event::StreamsResponse(o) => {
                match &self.phase {
                    Phase::Polling { ids, live } => {
                        let ids = clone_ids(ids);
                        let live = clone_ids(live);
                        let res = streams_outcome(o);
                        match res {
                            Ok(ss) => {
                                let notifs = compute_notifs(clone_ids(&live), &ss, 0);
                                let live2 = stream_ids(&ss);
                                self.phase = Phase::Polling { ids: clone_ids(&ids), live: live2 };
                                match self.poll_request(&ids) {
                                    Some(r) => Directive::Poll {
                                        notifications: notifs,
                                        request: r,
                                        wait_seconds: self.check_interval_seconds,
                                    },
                                    None => Directive::Stop,
                                }
                            },
                            Err(e) => {
                                match poll_error_disposition(&e) {
                                    ErrorDisposition::RetryNextTick => {
                                        match self.poll_request(&ids) {
                                            Some(r) => {
                                                proof {
                                                    assert(notifs_view(
                                                        Seq::<Notification>::empty(),
                                                    ) =~= Seq::<NotificationV>::empty());
                                                }
                                                Directive::Poll {
                                                    notifications: Vec::new(),
                                                    request: r,
                                                    wait_seconds: self.check_interval_seconds,
                                                }
                                            },
                                            None => Directive::Stop,
                                        }
                                    },
                                    ErrorDisposition::Reauthenticate => {
                                        self.phase = Phase::Reauthenticating { ids, live };
                                        Directive::Authenticate(self.client.token_request())
                                    },
                                    ErrorDisposition::Fatal => {
                                        self.phase = Phase::Terminated {
                                            outcome: Outcome::Failed(e),
                                        };
                                        Directive::Stop
                                    },
                                }
                            },
                        }
                    },
                    _ => self.current_directive(),
                }
            },
        }
    }

    /// Feeds a token-exchange outcome to the client.
    fn apply_token_outcome(&mut self, o: HttpOutcome) -> (r: Result<(), ApiError>)
        ensures
            final(self)@ == with_client(
                old(self)@,
                sp_token_outcome(old(self)@.client, o@).0,
                old(self)@.phase,
            ),
            crate::twitch_api::unit_result_matches(r, sp_token_outcome(old(self)@.client, o@).1),
    {
        match o {
            HttpOutcome::Response { status, body } => self.client.accept_token_response(
                status,
                body.as_str(),
            ),
            HttpOutcome::Failed { timeout } => Err(ApiError::Transport { timeout }),
        }
    }

    /// The stream-status request for `ids`, when a token is held.
    fn poll_request(&self, ids: &Vec<String>) -> (r: Option<StreamsRequest>)
        ensures
            match self@.client.access_token {
                Some(t) => r matches Some(q) && q@ == (StreamsRequestV {
                    bearer_token: t,
                    client_id: self@.client.client_id,
                    query: sp_id_query(ids.deep_view()),
                }),
                None => r is None,
            },
    {
        match &self.client.access_token {
            Some(t) => {
                let r = StreamsRequest {
                    bearer_token: t.clone(),
                    client_id: self.client.client_id.clone(),
                    query: crate::twitch_api::id_pairs(ids),
                };
                proof {
                    assert(r@.query =~= sp_id_query(ids.deep_view()));
                }
                Some(r)
            },
            None => None,
        }
    }
}


// ---------------------------------------------------------------------
// Laws of the transition relation.

/// The channel each notification is about.
pub open spec fn notif_ids(ns: Seq<NotificationV>) -> Seq<Seq<char>> {
    Seq::new(ns.len(), |k: int| ns[k].channel_id)
}

proof fn lemma_cons_to_set(s: Seq<Seq<char>>, x: Seq<char>)
    ensures
        (seq![x] + s).to_set() == s.to_set().insert(x),
{
    assert forall|y: Seq<char>| (seq![x] + s).to_set().contains(y) implies s.to_set().insert(
        x,
    ).contains(y) by {
        let j = choose|j: int| 0 <= j < (seq![x] + s).len() && (#[trigger] (seq![x] + s)[j]) == y;
        if j >= 1 {
            assert(s[j - 1] == y);
            assert(s.contains(y));
        }
    }
    assert forall|y: Seq<char>| s.to_set().insert(x).contains(y) implies (seq![x]
        + s).to_set().contains(y) by {
        if s.to_set().contains(y) {
            let j = choose|j: int| 0 <= j < s.len() && (#[trigger] s[j]) == y;
            assert((seq![x] + s)[j + 1] == y);
            assert((seq![x] + s).contains(y));
        } else {
            assert((seq![x] + s)[0] == y);
            assert((seq![x] + s).contains(y));
        }
    }
    assert((seq![x] + s).to_set() =~= s.to_set().insert(x));
}

proof fn lemma_skip_one_more_set(ids: Seq<Seq<char>>, k: int)
    requires
        0 <= k < ids.len(),
    ensures
        ids.skip(k).to_set() == ids.skip(k + 1).to_set().insert(ids[k]),
{
    assert forall|y: Seq<char>| ids.skip(k).to_set().contains(y) implies ids.skip(
        k + 1,
    ).to_set().insert(ids[k]).contains(y) by {
        let j = choose|j: int| 0 <= j < ids.skip(k).len() && (#[trigger] ids.skip(k)[j]) == y;
        if j >= 1 {
            assert(ids.skip(k + 1)[j - 1] == y);
            assert(ids.skip(k + 1).contains(y));
        }
    }
    assert forall|y: Seq<char>| ids.skip(k + 1).to_set().insert(ids[k]).contains(y) implies ids.skip(
        k,
    ).to_set().contains(y) by {
        if ids.skip(k + 1).to_set().contains(y) {
            let j = choose|j: int| 0 <= j < ids.skip(k + 1).len() && (#[trigger] ids.skip(k + 1)[j])
                == y;
            assert(ids.skip(k)[j + 1] == y);
            assert(ids.skip(k).contains(y));
        } else {
            assert(ids.skip(k)[0] == y);
            assert(ids.skip(k).contains(y));
        }
    }
    assert(ids.skip(k).to_set() =~= ids.skip(k + 1).to_set().insert(ids[k]));
}

proof fn lemma_notifs_rec(live: Set<Seq<char>>, ss: Seq<StreamV>, k: int)
    requires
        0 <= k <= ss.len(),
    ensures
        notif_ids(sp_notifs(live, ss, k)).to_set() == sp_stream_ids(ss).skip(
            k,
        ).to_set().difference(live),
        notif_ids(sp_notifs(live, ss, k)).no_duplicates(),
        forall|j: int|
            0 <= j < sp_notifs(live, ss, k).len() ==> !live.contains(
                #[trigger] sp_notifs(live, ss, k)[j].channel_id,
            ),
    decreases ss.len() - k,
{
    let ids = sp_stream_ids(ss);
    if k == ss.len() {
        assert(notif_ids(sp_notifs(live, ss, k)) =~= Seq::<Seq<char>>::empty());
        assert(ids.skip(k) =~= Seq::<Seq<char>>::empty());
        assert(notif_ids(sp_notifs(live, ss, k)).to_set() =~= ids.skip(k).to_set().difference(
            live,
        ));
    } else {
        let x = ss[k].user_id;
        lemma_skip_one_more_set(ids, k);
        if live.contains(x) {
            lemma_notifs_rec(live, ss, k + 1);
            assert(sp_notifs(live, ss, k) == sp_notifs(live, ss, k + 1));
            assert(notif_ids(sp_notifs(live, ss, k)).to_set() =~= ids.skip(k).to_set().difference(
                live,
            ));
        } else {
            lemma_notifs_rec(live.insert(x), ss, k + 1);
            let rest = sp_notifs(live.insert(x), ss, k + 1);
            assert(notif_ids(sp_notifs(live, ss, k)) =~= seq![x] + notif_ids(rest));
            lemma_cons_to_set(notif_ids(rest), x);
            assert(notif_ids(sp_notifs(live, ss, k)).to_set() =~= ids.skip(k).to_set().difference(
                live,
            ));
            assert(!notif_ids(rest).contains(x)) by {
                if notif_ids(rest).contains(x) {
                    let j = choose|j: int| 0 <= j < notif_ids(rest).len() && (#[trigger] notif_ids(
                        rest,
                    )[j]) == x;
                    assert(rest[j].channel_id == x);
                    assert(!live.insert(x).contains(rest[j].channel_id));
                }
            }
            assert(notif_ids(sp_notifs(live, ss, k)).no_duplicates()) by {
                let whole = notif_ids(sp_notifs(live, ss, k));
                assert(whole[0] == x);
                assert(forall|j: int|
                    1 <= j < whole.len() ==> whole[j] == notif_ids(rest)[j - 1]);
            }
        }
    }
}

/// Across one snapshot, the notified channels are exactly those the
/// snapshot reports live that were not believed live before, and each
/// is notified exactly once.
pub proof fn lemma_notifications_exactly_newly_live(live: Set<Seq<char>>, ss: Seq<StreamV>)
    ensures
        notif_ids(sp_notifs(live, ss, 0)).to_set() == sp_stream_ids(ss).to_set().difference(live),
        notif_ids(sp_notifs(live, ss, 0)).no_duplicates(),
{
    lemma_notifs_rec(live, ss, 0);
    assert(sp_stream_ids(ss).skip(0) =~= sp_stream_ids(ss));
}

/// Feeding a snapshot to a live set that already equals it issues no
/// notifications.
pub proof fn lemma_second_feed_is_silent(ss: Seq<StreamV>)
    ensures
        sp_notifs(sp_stream_ids(ss).to_set(), ss, 0).len() == 0,
{
    lemma_notifications_exactly_newly_live(sp_stream_ids(ss).to_set(), ss);
    let ns = sp_notifs(sp_stream_ids(ss).to_set(), ss, 0);
    assert(notif_ids(ns).to_set() =~= Set::<Seq<char>>::empty());
    if ns.len() > 0 {
        assert(notif_ids(ns).contains(notif_ids(ns)[0]));
        assert(notif_ids(ns).to_set().contains(notif_ids(ns)[0]));
    }
}

/// A monitor is well formed when a bearer token is held in every
/// phase that sends authenticated requests.
pub open spec fn wf(m: MonitorV) -> bool {
    match m.phase {
        PhaseV::Resolving => m.client.access_token is Some,
        PhaseV::Polling { .. } => m.client.access_token is Some,
        _ => true,
    }
}

/// Every step preserves well-formedness: authenticated phases are only
/// entered after a token grant succeeded.
pub proof fn lemma_step_preserves_wf(m: MonitorV, ev: EventV)
    requires
        wf(m),
    ensures
        wf(sp_step(m, ev).0),
{
}

/// A well-formed polling monitor always has a fetch to issue: its
/// directive is never cut short for want of a token.
pub proof fn lemma_wf_polling_directive(m: MonitorV)
    requires
        wf(m),
        m.phase is Polling,
    ensures
        sp_current_directive(m) is Poll,
{
}

/// What one successful poll does: the live set is replaced by exactly
/// the snapshot's identifiers, and the notified channels are exactly
/// those of the snapshot that were not live before, each exactly once.
pub proof fn lemma_successful_poll(
    m: MonitorV,
    ids: Seq<Seq<char>>,
    live: Set<Seq<char>>,
    o: HttpOutcomeV,
    ss: Seq<StreamV>,
)
    requires
        m.phase == (PhaseV::Polling { ids, live }),
        sp_streams_outcome(o) == Ok::<Seq<StreamV>, ApiErrorV>(ss),
    ensures
        sp_step(m, EventV::StreamsResponse(o)).0.phase == (PhaseV::Polling {
            ids,
            live: sp_stream_ids(ss).to_set(),
        }),
        sp_step(m, EventV::StreamsResponse(o)).1 matches DirectiveV::Poll {
            notifications,
            ..
        } ==> notif_ids(notifications).to_set() == sp_stream_ids(ss).to_set().difference(live)
            && notif_ids(notifications).no_duplicates(),
{
    lemma_notifications_exactly_newly_live(live, ss);
}

/// Two successive successful polls of the same snapshot: the second
/// leaves the monitor exactly as the first left it and notifies
/// nothing.
pub proof fn lemma_poll_idempotent(
    m: MonitorV,
    ids: Seq<Seq<char>>,
    live: Set<Seq<char>>,
    o: HttpOutcomeV,
    ss: Seq<StreamV>,
)
    requires
        m.phase == (PhaseV::Polling { ids, live }),
        sp_streams_outcome(o) == Ok::<Seq<StreamV>, ApiErrorV>(ss),
    ensures
        sp_step(sp_step(m, EventV::StreamsResponse(o)).0, EventV::StreamsResponse(o)).0 == sp_step(
            m,
            EventV::StreamsResponse(o),
        ).0,
        sp_step(sp_step(m, EventV::StreamsResponse(o)).0, EventV::StreamsResponse(o)).1 matches
            DirectiveV::Poll { notifications, .. } ==> notifications.len() == 0,
{
    let m1 = sp_step(m, EventV::StreamsResponse(o)).0;
    assert(m1.phase == (PhaseV::Polling { ids, live: sp_stream_ids(ss).to_set() }));
    lemma_second_feed_is_silent(ss);
    assert(sp_notifs(sp_stream_ids(ss).to_set(), ss, 0) =~= Seq::<NotificationV>::empty());
    let m2 = sp_step(m1, EventV::StreamsResponse(o)).0;
    assert(m2 == m1);
}

/// A transient poll failure — a timeout, or a server-error status —
/// changes nothing: the monitor keeps polling the same identifiers
/// with the same live set, and the tick issues no notification.
pub proof fn lemma_transient_failure_changes_nothing(m: MonitorV, o: HttpOutcomeV)
    requires
        m.phase is Polling,
        sp_streams_outcome(o) matches Err(e) && sp_poll_error_disposition(e)
            == ErrorDisposition::RetryNextTick,
    ensures
        sp_step(m, EventV::StreamsResponse(o)).0 == m,
        sp_step(m, EventV::StreamsResponse(o)).1 matches DirectiveV::Poll {
            notifications,
            ..
        } ==> notifications.len() == 0,
{
}

/// A server-error status on the stream-status fetch is transient.
pub proof fn lemma_server_error_is_transient(status: u16, body: Seq<char>)
    requires
        500 <= status < 600,
    ensures
        sp_streams_response(status, body) matches Err(e) && sp_poll_error_disposition(e)
            == ErrorDisposition::RetryNextTick,
{
}

/// A timed-out fetch is transient.
pub proof fn lemma_timeout_is_transient()
    ensures
        sp_poll_error_disposition(ApiErrorV::Transport { timeout: true })
            == ErrorDisposition::RetryNextTick,
{
}

/// A missing-token failure followed by a successful re-authentication
/// resumes polling on the very next tick: same identifiers, same live
/// set — channels already recorded live are not notified again — and
/// neither step issues a notification.
pub proof fn lemma_reauth_resumes_polling(
    m: MonitorV,
    ids: Seq<Seq<char>>,
    live: Set<Seq<char>>,
    o1: HttpOutcomeV,
    o2: HttpOutcomeV,
)
    requires
        m.phase == (PhaseV::Polling { ids, live }),
        sp_streams_outcome(o1) == Err::<Seq<StreamV>, ApiErrorV>(ApiErrorV::MissingToken),
        sp_token_outcome(m.client, o2).1 is Ok,
    ensures
        sp_step(m, EventV::StreamsResponse(o1)).0.phase == (PhaseV::Reauthenticating {
            ids,
            live,
        }),
        sp_step(m, EventV::StreamsResponse(o1)).1 is Authenticate,
        sp_step(sp_step(m, EventV::StreamsResponse(o1)).0, EventV::TokenResponse(o2)).0.phase == (
        PhaseV::Polling { ids, live }),
        sp_step(sp_step(m, EventV::StreamsResponse(o1)).0, EventV::TokenResponse(o2)).1 matches
            DirectiveV::Poll { notifications, .. } ==> notifications.len() == 0,
{
    let m1 = sp_step(m, EventV::StreamsResponse(o1)).0;
    assert(m1.client == m.client);
}

/// A missing-token failure whose re-authentication itself fails
/// terminates the session, surfacing the authentication failure.
pub proof fn lemma_failed_reauth_terminates(
    m: MonitorV,
    ids: Seq<Seq<char>>,
    live: Set<Seq<char>>,
    o1: HttpOutcomeV,
    o2: HttpOutcomeV,
    e: ApiErrorV,
)
    requires
        m.phase == (PhaseV::Polling { ids, live }),
        sp_streams_outcome(o1) == Err::<Seq<StreamV>, ApiErrorV>(ApiErrorV::MissingToken),
        sp_token_outcome(m.client, o2).1 == Err::<(), ApiErrorV>(e),
    ensures
        sp_step(sp_step(m, EventV::StreamsResponse(o1)).0, EventV::TokenResponse(o2)).0.phase == (
        PhaseV::Terminated { outcome: OutcomeV::Failed(e) }),
        sp_step(sp_step(m, EventV::StreamsResponse(o1)).0, EventV::TokenResponse(o2)).1
            == DirectiveV::Stop,
{
    let m1 = sp_step(m, EventV::StreamsResponse(o1)).0;
    assert(m1.client == m.client);
}

fn users_outcome(o: HttpOutcome) -> (r: Result<Vec<User>, ApiError>)
    ensures
        crate::twitch_api::users_result_matches(r, sp_users_outcome(o@)),
{
    match o {
        HttpOutcome::Response { status, body } => parse_users_response(status, body.as_str()),
        HttpOutcome::Failed { timeout } => Err(ApiError::Transport { timeout }),
    }
}

fn streams_outcome(o: HttpOutcome) -> (r: Result<Vec<Stream>, ApiError>)
    ensures
        crate::twitch_api::streams_result_matches(r, sp_streams_outcome(o@)),
{
    match o {
        HttpOutcome::Response { status, body } => parse_streams_response(status, body.as_str()),
        HttpOutcome::Failed { timeout } => Err(ApiError::Transport { timeout }),
    }
}

} // verus!
