use vstd::prelude::*;
use vstd::string::StringExecFns;
use crate::json::{
    Json, JsonV, jview, jview_seq, parse_json, sp_get, sp_json, sp_str_of, sp_u64_of,
};

verus! {

// The API client: the platform's wire types, the error taxonomy, the
// bearer-token lifecycle, and the exact interpretation of each
// endpoint's response. The HTTP transport itself lives outside the
// library; it is handed request descriptions built here and its raw
// outcomes (status and body text) are interpreted here.

/// Response of the token endpoint's client-credentials grant.
pub struct AppAccessTokenResponse {
    pub access_token: String,
    pub expires_in: u64,
    pub token_type: String,
}

pub struct TokenRespV {
    pub access_token: Seq<char>,
    pub expires_in: u64,
    pub token_type: Seq<char>,
}

impl View for AppAccessTokenResponse {
    type V = TokenRespV;

    open spec fn view(&self) -> TokenRespV {
        TokenRespV {
            access_token: self.access_token@,
            expires_in: self.expires_in,
            token_type: self.token_type@,
        }
    }
}

/// One channel as the user-lookup endpoint reports it.
pub struct User {
    pub id: String,
    pub login: String,
    pub display_name: String,
}

pub struct UserV {
    pub id: Seq<char>,
    pub login: Seq<char>,
    pub display_name: Seq<char>,
}

impl View for User {
    type V = UserV;

    open spec fn view(&self) -> UserV {
        UserV { id: self.id@, login: self.login@, display_name: self.display_name@ }
    }
}

/// The envelope every data endpoint wraps its array in.
pub struct TwitchDataWrapper<T> {
    pub data: Vec<T>,
}

/// One live stream as the stream-status endpoint reports it; a channel
/// absent from the report is offline.
pub struct Stream {
    pub id: String,
    pub user_id: String,
    pub user_login: String,
    pub user_name: String,
    pub game_id: String,
    pub game_name: String,
    pub title: String,
    pub stream_type: String,
    pub viewer_count: u64,
    pub started_at: String,
}

pub struct StreamV {
    pub id: Seq<char>,
    pub user_id: Seq<char>,
    pub user_login: Seq<char>,
    pub user_name: Seq<char>,
    pub game_id: Seq<char>,
    pub game_name: Seq<char>,
    pub title: Seq<char>,
    pub stream_type: Seq<char>,
    pub viewer_count: u64,
    pub started_at: Seq<char>,
}

impl View for Stream {
    type V = StreamV;

    open spec fn view(&self) -> StreamV {
        StreamV {
            id: self.id@,
            user_id: self.user_id@,
            user_login: self.user_login@,
            user_name: self.user_name@,
            game_id: self.game_id@,
            game_name: self.game_name@,
            title: self.title@,
            stream_type: self.stream_type@,
            viewer_count: self.viewer_count,
            started_at: self.started_at@,
        }
    }
}

/// The client's error taxonomy. Every failure an operation can report
/// is one of these kinds; what each kind means for the monitor loop is
/// decided by the classification in the monitor module.
#[derive(Debug)]
pub enum ApiError {
    /// The request produced no response: connection failure, or a
    /// timeout when `timeout` is set.
    Transport { timeout: bool },
    /// A non-success response other than 401, with its status and raw
    /// body text.
    HttpError { status: u16, body: String },
    /// An operation needed a bearer token and none was held, or the
    /// platform rejected the held one with a 401.
    MissingToken,
    /// A success response whose body was not the expected JSON shape.
    DecodeError,
}

pub enum ApiErrorV {
    Transport { timeout: bool },
    HttpError { status: u16, body: Seq<char> },
    MissingToken,
    DecodeError,
}

impl View for ApiError {
    type V = ApiErrorV;

    open spec fn view(&self) -> ApiErrorV {
        match self {
            ApiError::Transport { timeout } => ApiErrorV::Transport { timeout: *timeout },
            ApiError::HttpError { status, body } => ApiErrorV::HttpError {
                status: *status,
                body: body@,
            },
            ApiError::MissingToken => ApiErrorV::MissingToken,
            ApiError::DecodeError => ApiErrorV::DecodeError,
        }
    }
}

// ---------------------------------------------------------------------
// Endpoint locations.

/// The token endpoint.
pub fn twitch_auth_url() -> (r: &'static str)
    ensures
        r@ == "https://id.twitch.tv/oauth2/token"@,
{
    "https://id.twitch.tv/oauth2/token"
}

/// The user-lookup endpoint.
pub fn twitch_users_url() -> (r: &'static str)
    ensures
        r@ == "https://api.twitch.tv/helix/users"@,
{
    "https://api.twitch.tv/helix/users"
}

/// The stream-status endpoint.
pub fn twitch_streams_url() -> (r: &'static str)
    ensures
        r@ == "https://api.twitch.tv/helix/streams"@,
{
    "https://api.twitch.tv/helix/streams"
}

// ---------------------------------------------------------------------
// Reading the wire envelopes.

pub open spec fn sp_str_field(v: JsonV, key: Seq<char>) -> Option<Seq<char>> {
    match sp_get(v, key) {
        Some(f) => sp_str_of(f),
        None => None,
    }
}

pub open spec fn sp_u64_field(v: JsonV, key: Seq<char>) -> Option<u64> {
    match sp_get(v, key) {
        Some(f) => sp_u64_of(f),
        None => None,
    }
}

fn get_str_field(v: &Json, key: &String) -> (r: Option<String>)
    ensures
        r matches Some(s) ==> sp_str_field(jview(*v), key@) == Some(s@),
        r is None ==> sp_str_field(jview(*v), key@) is None,
{
    match v.get(key) {
        Some(f) => match f.as_string() {
            Some(s) => Some(s.clone()),
            None => None,
        },
        None => None,
    }
}

fn get_u64_field(v: &Json, key: &String) -> (r: Option<u64>)
    ensures
        r == sp_u64_field(jview(*v), key@),
{
    match v.get(key) {
        Some(f) => f.as_u64(),
        None => None,
    }
}

/// What a token-endpoint success body means.
pub open spec fn sp_token_resp(doc: JsonV) -> Option<TokenRespV> {
    match (
        sp_str_field(doc, "access_token"@),
        sp_u64_field(doc, "expires_in"@),
        sp_str_field(doc, "token_type"@),
    ) {
        (Some(a), Some(e), Some(t)) => Some(
            TokenRespV { access_token: a, expires_in: e, token_type: t },
        ),
        _ => None,
    }
}

pub open spec fn sp_token_body(s: Seq<char>) -> Option<TokenRespV> {
    match sp_json(s) {
        Some(doc) => sp_token_resp(doc),
        None => None,
    }
}

/// Reads a token-endpoint body: exactly the fields `sp_token_body`
/// assigns to the text, or nothing when the shape is wrong.
pub fn parse_token_body(body: &str) -> (r: Option<AppAccessTokenResponse>)
    ensures
        r matches Some(t) ==> sp_token_body(body@) == Some(t@),
        r is None ==> sp_token_body(body@) is None,
{
    let doc = match parse_json(body) {
        Some(d) => d,
        None => {
            return None;
        },
    };
    let access_token = match get_str_field(&doc, &String::from_str("access_token")) {
        Some(s) => s,
        None => {
            return None;
        },
    };
    let expires_in = match get_u64_field(&doc, &String::from_str("expires_in")) {
        Some(n) => n,
        None => {
            return None;
        },
    };
    let token_type = match get_str_field(&doc, &String::from_str("token_type")) {
        Some(s) => s,
        None => {
            return None;
        },
    };
    Some(AppAccessTokenResponse { access_token, expires_in, token_type })
}

pub open spec fn sp_user_of(v: JsonV) -> Option<UserV> {
    match (
        sp_str_field(v, "id"@),
        sp_str_field(v, "login"@),
        sp_str_field(v, "display_name"@),
    ) {
        (Some(i), Some(l), Some(d)) => Some(UserV { id: i, login: l, display_name: d }),
        _ => None,
    }
}

pub open spec fn sp_stream_of(v: JsonV) -> Option<StreamV> {
    match (
        sp_str_field(v, "id"@),
        sp_str_field(v, "user_id"@),
        sp_str_field(v, "user_login"@),
        sp_str_field(v, "user_name"@),
        sp_str_field(v, "game_id"@),
        sp_str_field(v, "game_name"@),
        sp_str_field(v, "title"@),
        sp_str_field(v, "type"@),
        sp_u64_field(v, "viewer_count"@),
        sp_str_field(v, "started_at"@),
    ) {
        (
            Some(id),
            Some(user_id),
            Some(user_login),
            Some(user_name),
            Some(game_id),
            Some(game_name),
            Some(title),
            Some(stream_type),
            Some(viewer_count),
            Some(started_at),
        ) => Some(
            StreamV {
                id,
                user_id,
                user_login,
                user_name,
                game_id,
                game_name,
                title,
                stream_type,
                viewer_count,
                started_at,
            },
        ),
        _ => None,
    }
}

fn parse_user(v: &Json) -> (r: Option<User>)
    ensures
        r matches Some(u) ==> sp_user_of(jview(*v)) == Some(u@),
        r is None ==> sp_user_of(jview(*v)) is None,
{
    let id = match get_str_field(v, &String::from_str("id")) {
        Some(s) => s,
        None => {
            return None;
        },
    };
    let login = match get_str_field(v, &String::from_str("login")) {
        Some(s) => s,
        None => {
            return None;
        },
    };
    let display_name = match get_str_field(v, &String::from_str("display_name")) {
        Some(s) => s,
        None => {
            return None;
        },
    };
    Some(User { id, login, display_name })
}

fn parse_stream(v: &Json) -> (r: Option<Stream>)
    ensures
        r matches Some(s) ==> sp_stream_of(jview(*v)) == Some(s@),
        r is None ==> sp_stream_of(jview(*v)) is None,
{
    let id = match get_str_field(v, &String::from_str("id")) {
        Some(s) => s,
        None => {
            return None;
        },
    };
    let user_id = match get_str_field(v, &String::from_str("user_id")) {
        Some(s) => s,
        None => {
            return None;
        },
    };
    let user_login = match get_str_field(v, &String::from_str("user_login")) {
        Some(s) => s,
        None => {
            return None;
        },
    };
    let user_name = match get_str_field(v, &String::from_str("user_name")) {
        Some(s) => s,
        None => {
            return None;
        },
    };
    let game_id = match get_str_field(v, &String::from_str("game_id")) {
        Some(s) => s,
        None => {
            return None;
        },
    };
    let game_name = match get_str_field(v, &String::from_str("game_name")) {
        Some(s) => s,
        None => {
            return None;
        },
    };
    let title = match get_str_field(v, &String::from_str("title")) {
        Some(s) => s,
        None => {
            return None;
        },
    };
    let stream_type = match get_str_field(v, &String::from_str("type")) {
        Some(s) => s,
        None => {
            return None;
        },
    };
    let viewer_count = match get_u64_field(v, &String::from_str("viewer_count")) {
        Some(n) => n,
        None => {
            return None;
        },
    };
    let started_at = match get_str_field(v, &String::from_str("started_at")) {
        Some(s) => s,
        None => {
            return None;
        },
    };
    Some(
        Stream {
            id,
            user_id,
            user_login,
            user_name,
            game_id,
            game_name,
            title,
            stream_type,
            viewer_count,
            started_at,
        },
    )
}

pub open spec fn users_view(q: Seq<User>) -> Seq<UserV> {
    Seq::new(q.len(), |k: int| q[k]@)
}

pub open spec fn streams_view(q: Seq<Stream>) -> Seq<StreamV> {
    Seq::new(q.len(), |k: int| q[k]@)
}

pub open spec fn sp_users_arr(vs: Seq<JsonV>, k: int, acc: Seq<UserV>) -> Option<Seq<UserV>>
    decreases vs.len() - k,
{
    if !(0 <= k < vs.len()) {
        Some(acc)
    } else {
        match sp_user_of(vs[k]) {
            Some(u) => sp_users_arr(vs, k + 1, acc.push(u)),
            None => None,
        }
    }
}

pub open spec fn sp_streams_arr(vs: Seq<JsonV>, k: int, acc: Seq<StreamV>) -> Option<Seq<StreamV>>
    decreases vs.len() - k,
{
    if !(0 <= k < vs.len()) {
        Some(acc)
    } else {
        match sp_stream_of(vs[k]) {
            Some(s) => sp_streams_arr(vs, k + 1, acc.push(s)),
            None => None,
        }
    }
}

fn parse_users_arr(arr: &Vec<Json>) -> (r: Option<Vec<User>>)
    ensures
        r matches Some(us) ==> sp_users_arr(jview_seq(arr@), 0, Seq::empty()) == Some(
            users_view(us@),
        ),
        r is None ==> sp_users_arr(jview_seq(arr@), 0, Seq::empty()) is None,
{
    let mut out: Vec<User> = Vec::new();
    let mut k: usize = 0;
    proof {
        assert(users_view(Seq::<User>::empty()) =~= Seq::<UserV>::empty());
    }
    while k < arr.len()
        invariant
            k <= arr.len(),
            sp_users_arr(jview_seq(arr@), 0, Seq::empty()) == sp_users_arr(
                jview_seq(arr@),
                k as int,
                users_view(out@),
            ),
        decreases arr.len() - k,
    {
        proof {
            assert(jview_seq(arr@)[k as int] == jview(arr@[k as int]));
        }
        let ghost out0 = out@;
        match parse_user(&arr[k]) {
            Some(u) => {
                let ghost uv = u@;
                out.push(u);
                proof {
                    assert(users_view(out@) =~= users_view(out0).push(uv));
                }
            },
            None => {
                return None;
            },
        }
        k += 1;
    }
    Some(out)
}

fn parse_streams_arr(arr: &Vec<Json>) -> (r: Option<Vec<Stream>>)
    ensures
        r matches Some(ss) ==> sp_streams_arr(jview_seq(arr@), 0, Seq::empty()) == Some(
            streams_view(ss@),
        ),
        r is None ==> sp_streams_arr(jview_seq(arr@), 0, Seq::empty()) is None,
{
    let mut out: Vec<Stream> = Vec::new();
    let mut k: usize = 0;
    proof {
        assert(streams_view(Seq::<Stream>::empty()) =~= Seq::<StreamV>::empty());
    }
    while k < arr.len()
        invariant
            k <= arr.len(),
            sp_streams_arr(jview_seq(arr@), 0, Seq::empty()) == sp_streams_arr(
                jview_seq(arr@),
                k as int,
                streams_view(out@),
            ),
        decreases arr.len() - k,
    {
        proof {
            assert(jview_seq(arr@)[k as int] == jview(arr@[k as int]));
        }
        let ghost out0 = out@;
        match parse_stream(&arr[k]) {
            Some(s) => {
                let ghost sv = s@;
                out.push(s);
                proof {
                    assert(streams_view(out@) =~= streams_view(out0).push(sv));
                }
            },
            None => {
                return None;
            },
        }
        k += 1;
    }
    Some(out)
}

/// What a user-lookup success body means: the `data` array, each entry
/// a channel, in the order the platform sent them.
pub open spec fn sp_users_body(s: Seq<char>) -> Option<Seq<UserV>> {
    match sp_json(s) {
        None => None,
        Some(doc) => match sp_get(doc, "data"@) {
            Some(JsonV::Arr(vs)) => sp_users_arr(vs, 0, Seq::empty()),
            _ => None,
        },
    }
}

/// What a stream-status success body means.
pub open spec fn sp_streams_body(s: Seq<char>) -> Option<Seq<StreamV>> {
    match sp_json(s) {
        None => None,
        Some(doc) => match sp_get(doc, "data"@) {
            Some(JsonV::Arr(vs)) => sp_streams_arr(vs, 0, Seq::empty()),
            _ => None,
        },
    }
}

pub fn parse_users_body(body: &str) -> (r: Option<Vec<User>>)
    ensures
        r matches Some(us) ==> sp_users_body(body@) == Some(users_view(us@)),
        r is None ==> sp_users_body(body@) is None,
{
    let doc = match parse_json(body) {
        Some(d) => d,
        None => {
            return None;
        },
    };
    let data = match doc.get(&String::from_str("data")) {
        Some(f) => f,
        None => {
            return None;
        },
    };
    let arr = match data.as_array() {
        Some(a) => a,
        None => {
            return None;
        },
    };
    parse_users_arr(arr)
}

pub fn parse_streams_body(body: &str) -> (r: Option<Vec<Stream>>)
    ensures
        r matches Some(ss) ==> sp_streams_body(body@) == Some(streams_view(ss@)),
        r is None ==> sp_streams_body(body@) is None,
{
    let doc = match parse_json(body) {
        Some(d) => d,
        None => {
            return None;
        },
    };
    let data = match doc.get(&String::from_str("data")) {
        Some(f) => f,
        None => {
            return None;
        },
    };
    let arr = match data.as_array() {
        Some(a) => a,
        None => {
            return None;
        },
    };
    parse_streams_arr(arr)
}

// ---------------------------------------------------------------------
// Interpreting whole responses.

pub open spec fn sp_is_success(status: u16) -> bool {
    200 <= status < 300
}

/// What a user-lookup response means: the parsed list on a success
/// body; `MissingToken` on a 401, since the platform rejects exactly
/// invalid bearer tokens that way; `HttpError` on any other non-success
/// status; `DecodeError` on a success body of the wrong shape.
pub open spec fn sp_users_response(status: u16, body: Seq<char>) -> Result<Seq<UserV>, ApiErrorV> {
    if !sp_is_success(status) {
        if status == 401 {
            Err(ApiErrorV::MissingToken)
        } else {
            Err(ApiErrorV::HttpError { status, body })
        }
    } else {
        match sp_users_body(body) {
            Some(us) => Ok(us),
            None => Err(ApiErrorV::DecodeError),
        }
    }
}

/// What a stream-status response means; the error reading is the same
/// as for the user lookup.
pub open spec fn sp_streams_response(status: u16, body: Seq<char>) -> Result<
    Seq<StreamV>,
    ApiErrorV,
> {
    if !sp_is_success(status) {
        if status == 401 {
            Err(ApiErrorV::MissingToken)
        } else {
            Err(ApiErrorV::HttpError { status, body })
        }
    } else {
        match sp_streams_body(body) {
            Some(ss) => Ok(ss),
            None => Err(ApiErrorV::DecodeError),
        }
    }
}

pub open spec fn users_result_matches(
    r: Result<Vec<User>, ApiError>,
    sp: Result<Seq<UserV>, ApiErrorV>,
) -> bool {
    match r {
        Ok(us) => sp == Ok::<Seq<UserV>, ApiErrorV>(users_view(us@)),
        Err(e) => sp == Err::<Seq<UserV>, ApiErrorV>(e@),
    }
}

pub open spec fn streams_result_matches(
    r: Result<Vec<Stream>, ApiError>,
    sp: Result<Seq<StreamV>, ApiErrorV>,
) -> bool {
    match r {
        Ok(ss) => sp == Ok::<Seq<StreamV>, ApiErrorV>(streams_view(ss@)),
        Err(e) => sp == Err::<Seq<StreamV>, ApiErrorV>(e@),
    }
}

/// Interprets a raw user-lookup response, exactly as
/// `sp_users_response` reads it.
pub fn parse_users_response(status: u16, body: &str) -> (r: Result<Vec<User>, ApiError>)
    ensures
        users_result_matches(r, sp_users_response(status, body@)),
{
    if !(200 <= status && status < 300) {
        if status == 401 {
            Err(ApiError::MissingToken)
        } else {
            Err(ApiError::HttpError { status, body: body.to_owned() })
        }
    } else {
        match parse_users_body(body) {
            Some(us) => Ok(us),
            None => Err(ApiError::DecodeError),
        }
    }
}

/// Interprets a raw stream-status response, exactly as
/// `sp_streams_response` reads it.
pub fn parse_streams_response(status: u16, body: &str) -> (r: Result<Vec<Stream>, ApiError>)
    ensures
        streams_result_matches(r, sp_streams_response(status, body@)),
{
    if !(200 <= status && status < 300) {
        if status == 401 {
            Err(ApiError::MissingToken)
        } else {
            Err(ApiError::HttpError { status, body: body.to_owned() })
        }
    } else {
        match parse_streams_body(body) {
            Some(ss) => Ok(ss),
            None => Err(ApiError::DecodeError),
        }
    }
}

// ---------------------------------------------------------------------
// The client and its requests.

/// Pairs shared by the requests: the form of the token grant, the query
/// of a lookup.
pub open spec fn pairs_view(q: Seq<(String, String)>) -> Seq<(Seq<char>, Seq<char>)> {
    Seq::new(q.len(), |k: int| (q[k].0@, q[k].1@))
}

/// The token grant: a form POST to the token endpoint.
pub struct TokenRequest {
    pub form: Vec<(String, String)>,
}

pub struct TokenRequestV {
    pub form: Seq<(Seq<char>, Seq<char>)>,
}

impl View for TokenRequest {
    type V = TokenRequestV;

    open spec fn view(&self) -> TokenRequestV {
        TokenRequestV { form: pairs_view(self.form@) }
    }
}

/// A user lookup: a GET with the bearer token, the client-identity
/// header, and one `login` query parameter per requested name.
pub struct UsersRequest {
    pub bearer_token: String,
    pub client_id: String,
    pub query: Vec<(String, String)>,
}

pub struct UsersRequestV {
    pub bearer_token: Seq<char>,
    pub client_id: Seq<char>,
    pub query: Seq<(Seq<char>, Seq<char>)>,
}

impl View for UsersRequest {
    type V = UsersRequestV;

    open spec fn view(&self) -> UsersRequestV {
        UsersRequestV {
            bearer_token: self.bearer_token@,
            client_id: self.client_id@,
            query: pairs_view(self.query@),
        }
    }
}

/// A stream-status fetch: a GET with the same headers and one `user_id`
/// query parameter per monitored identifier.
pub struct StreamsRequest {
    pub bearer_token: String,
    pub client_id: String,
    pub query: Vec<(String, String)>,
}

pub struct StreamsRequestV {
    pub bearer_token: Seq<char>,
    pub client_id: Seq<char>,
    pub query: Seq<(Seq<char>, Seq<char>)>,
}

impl View for StreamsRequest {
    type V = StreamsRequestV;

    open spec fn view(&self) -> StreamsRequestV {
        StreamsRequestV {
            bearer_token: self.bearer_token@,
            client_id: self.client_id@,
            query: pairs_view(self.query@),
        }
    }
}

/// The API client: the credentials and the bearer token currently held.
/// The token is absent until a token response is accepted, and replaced
/// wholesale by each later one.
pub struct TwitchClient {
    pub client_id: String,
    pub client_secret: String,
    pub access_token: Option<String>,
}

pub struct TwitchClientV {
    pub client_id: Seq<char>,
    pub client_secret: Seq<char>,
    pub access_token: Option<Seq<char>>,
}

impl View for TwitchClient {
    type V = TwitchClientV;

    open spec fn view(&self) -> TwitchClientV {
        TwitchClientV {
            client_id: self.client_id@,
            client_secret: self.client_secret@,
            access_token: match self.access_token {
                Some(t) => Some(t@),
                None => None,
            },
        }
    }
}

pub open spec fn sp_token_request(c: TwitchClientV) -> TokenRequestV {
    TokenRequestV {
        form: seq![
            ("client_id"@, c.client_id),
            ("client_secret"@, c.client_secret),
            ("grant_type"@, "client_credentials"@),
        ],
    }
}

pub open spec fn sp_login_query(logins: Seq<Seq<char>>) -> Seq<(Seq<char>, Seq<char>)> {
    Seq::new(logins.len(), |k: int| ("login"@, logins[k]))
}

pub open spec fn sp_id_query(ids: Seq<Seq<char>>) -> Seq<(Seq<char>, Seq<char>)> {
    Seq::new(ids.len(), |k: int| ("user_id"@, ids[k]))
}

/// The user lookup owed for a list of names: nothing to send when the
/// list is empty (the answer is the empty list, without any network
/// call), `MissingToken` when no bearer token is held, and otherwise
/// the request carrying the token and one `login` parameter per name.
pub open spec fn sp_users_request(c: TwitchClientV, logins: Seq<Seq<char>>) -> Result<
    Option<UsersRequestV>,
    ApiErrorV,
> {
    if logins.len() == 0 {
        Ok(None)
    } else {
        match c.access_token {
            None => Err(ApiErrorV::MissingToken),
            Some(t) => Ok(
                Some(
                    UsersRequestV {
                        bearer_token: t,
                        client_id: c.client_id,
                        query: sp_login_query(logins),
                    },
                ),
            ),
        }
    }
}

/// The stream-status fetch owed for an identifier list: `MissingToken`
/// without a bearer token, else the request carrying the token and one
/// `user_id` parameter per identifier.
pub open spec fn sp_streams_request(c: TwitchClientV, ids: Seq<Seq<char>>) -> Result<
    StreamsRequestV,
    ApiErrorV,
> {
    match c.access_token {
        None => Err(ApiErrorV::MissingToken),
        Some(t) => Ok(
            StreamsRequestV {
                bearer_token: t,
                client_id: c.client_id,
                query: sp_id_query(ids),
            },
        ),
    }
}

pub open spec fn users_req_matches(
    r: Result<Option<UsersRequest>, ApiError>,
    sp: Result<Option<UsersRequestV>, ApiErrorV>,
) -> bool {
    match r {
        Ok(None) => sp == Ok::<Option<UsersRequestV>, ApiErrorV>(None),
        Ok(Some(q)) => sp == Ok::<Option<UsersRequestV>, ApiErrorV>(Some(q@)),
        Err(e) => sp == Err::<Option<UsersRequestV>, ApiErrorV>(e@),
    }
}

pub open spec fn streams_req_matches(
    r: Result<StreamsRequest, ApiError>,
    sp: Result<StreamsRequestV, ApiErrorV>,
) -> bool {
    match r {
        Ok(q) => sp == Ok::<StreamsRequestV, ApiErrorV>(q@),
        Err(e) => sp == Err::<StreamsRequestV, ApiErrorV>(e@),
    }
}

/// What accepting a token response does to the client: on a success
/// body of the right shape the token is replaced and nothing else
/// changes; on a wrong shape `DecodeError`; on any non-success status
/// `HttpError` with the status and raw body; the held token survives
/// every failure.
pub open spec fn sp_accept_token(pre: TwitchClientV, status: u16, body: Seq<char>) -> (
    TwitchClientV,
    Result<(), ApiErrorV>,
) {
    if sp_is_success(status) {
        match sp_token_body(body) {
            Some(t) => (
                TwitchClientV {
                    client_id: pre.client_id,
                    client_secret: pre.client_secret,
                    access_token: Some(t.access_token),
                },
                Ok(()),
            ),
            None => (pre, Err(ApiErrorV::DecodeError)),
        }
    } else {
        (pre, Err(ApiErrorV::HttpError { status, body }))
    }
}

pub open spec fn unit_result_matches(
    r: Result<(), ApiError>,
    sp: Result<(), ApiErrorV>,
) -> bool {
    match r {
        Ok(_) => sp == Ok::<(), ApiErrorV>(()),
        Err(e) => sp == Err::<(), ApiErrorV>(e@),
    }
}

impl TwitchClient {
    /// A client holding the credentials and no token yet.
    pub fn new(client_id: String, client_secret: String) -> (c: TwitchClient)
        ensures
            c.client_id == client_id,
            c.client_secret == client_secret,
            c.access_token is None,
    {
        TwitchClient { client_id, client_secret, access_token: None }
    }

    /// The client-credentials form the token endpoint is sent.
    pub fn token_request(&self) -> (r: TokenRequest)
        ensures
            r@ == sp_token_request(self@),
    {
        let mut form: Vec<(String, String)> = Vec::new();
        form.push((String::from_str("client_id"), self.client_id.clone()));
        form.push((String::from_str("client_secret"), self.client_secret.clone()));
        form.push((String::from_str("grant_type"), String::from_str("client_credentials")));
        let r = TokenRequest { form };
        proof {
            assert(r@.form =~= sp_token_request(self@).form);
        }
        r
    }

    /// Accepts a raw token-endpoint response, exactly as
    /// `sp_accept_token` reads it.
    pub fn accept_token_response(&mut self, status: u16, body: &str) -> (r: Result<(), ApiError>)
        ensures
            final(self)@ == sp_accept_token(old(self)@, status, body@).0,
            unit_result_matches(r, sp_accept_token(old(self)@, status, body@).1),
    {
        if 200 <= status && status < 300 {
            match parse_token_body(body) {
                Some(t) => {
                    self.access_token = Some(t.access_token);
                    Ok(())
                },
                None => Err(ApiError::DecodeError),
            }
        } else {
            Err(ApiError::HttpError { status, body: body.to_owned() })
        }
    }

    /// The user lookup owed for `logins`, exactly as `sp_users_request`
    /// says: no request for an empty list, `MissingToken` without a
    /// token, else the request to send.
    pub fn users_request(&self, logins: &Vec<String>) -> (r: Result<Option<UsersRequest>, ApiError>)
        ensures
            users_req_matches(r, sp_users_request(self@, logins.deep_view())),
    {
        if logins.len() == 0 {
            return Ok(None);
        }
        let token = match &self.access_token {
            Some(t) => t.clone(),
            None => {
                return Err(ApiError::MissingToken);
            },
        };
        let query = login_pairs(logins);
        let r = UsersRequest { bearer_token: token, client_id: self.client_id.clone(), query };
        proof {
            assert(r@.query =~= sp_login_query(logins.deep_view()));
        }
        Ok(Some(r))
    }

    /// The stream-status fetch owed for `ids`, exactly as
    /// `sp_streams_request` says.
    pub fn streams_request(&self, ids: &Vec<String>) -> (r: Result<StreamsRequest, ApiError>)
        ensures
            streams_req_matches(r, sp_streams_request(self@, ids.deep_view())),
    {
        let token = match &self.access_token {
            Some(t) => t.clone(),
            None => {
                return Err(ApiError::MissingToken);
            },
        };
        let query = id_pairs(ids);
        let r = StreamsRequest { bearer_token: token, client_id: self.client_id.clone(), query };
        proof {
            assert(r@.query =~= sp_id_query(ids.deep_view()));
        }
        Ok(r)
    }
}

pub(crate) fn login_pairs(logins: &Vec<String>) -> (q: Vec<(String, String)>)
    ensures
        q@.len() == logins@.len(),
        forall|j: int|
            0 <= j < q@.len() ==> (#[trigger] q@[j]).0@ == "login"@ && q@[j].1@
                == logins.deep_view()[j],
{
    let mut q: Vec<(String, String)> = Vec::new();
    let mut k: usize = 0;
    while k < logins.len()
        invariant
            k <= logins.len(),
            q@.len() == k,
            forall|j: int|
                0 <= j < k ==> (#[trigger] q@[j]).0@ == "login"@ && q@[j].1@
                    == logins.deep_view()[j],
        decreases logins.len() - k,
    {
        q.push((String::from_str("login"), logins[k].clone()));
        k += 1;
    }
    q
}

pub(crate) fn id_pairs(ids: &Vec<String>) -> (q: Vec<(String, String)>)
    ensures
        q@.len() == ids@.len(),
        forall|j: int|
            0 <= j < q@.len() ==> (#[trigger] q@[j]).0@ == "user_id"@ && q@[j].1@
                == ids.deep_view()[j],
{
    let mut q: Vec<(String, String)> = Vec::new();
    let mut k: usize = 0;
    while k < ids.len()
        invariant
            k <= ids.len(),
            q@.len() == k,
            forall|j: int|
                0 <= j < k ==> (#[trigger] q@[j]).0@ == "user_id"@ && q@[j].1@
                    == ids.deep_view()[j],
        decreases ids.len() - k,
    {
        q.push((String::from_str("user_id"), ids[k].clone()));
        k += 1;
    }
    q
}

} // verus!
