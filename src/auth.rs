use vstd::prelude::*;
use crate::model::TokenResponse;
use crate::text::{decimal, decimal_text, remove_all, remove_all_text};
use crate::top::is_success;

verus! {

/// Status of a rejected callback.
pub const BAD_REQUEST: u16 = 400;

/// Status of a failed token exchange.
pub const TOKEN_EXCHANGE_FAILED: u16 = 500;

/// Upstream endpoint of the code-for-token exchange (form-encoded POST).
pub const TOKEN_URL: &'static str = "https://accounts.spotify.com/api/token";

/// Settings read once at start-up and handed to every handler.
pub struct Config {
    /// The redirect URI registered upstream; login and callback send it as is.
    pub redirect_uri: String,
}

/// Query of the login route (PKCE flow).
pub struct LoginQuery {
    pub client_id: String,
    pub code_challenge: String,
    pub code_challenge_method: String,
}

/// Query that the authorization server sends back to the callback route.
pub struct CallbackQuery {
    pub code: Option<String>,
    pub code_verifier: Option<String>,
    pub client_id: Option<String>,
    pub error: Option<String>,
}

/// A plain-text reply: status and body.
pub struct Reply {
    pub status: u16,
    pub body: String,
}

/// What the callback route does with its query.
pub enum CallbackStep {
    /// POST these form fields, in order, to the upstream token endpoint.
    Exchange(Vec<(String, String)>),
    /// Answer at once, without any upstream request.
    Reject(Reply),
}

/// Why a token exchange failed.
pub enum ExchangeError {
    /// The POST could not be sent; the transport's description.
    Request(String),
    /// The reply's body could not be read; the transport's description.
    BodyRead(String),
    /// Upstream answered with a non-2xx status and this body.
    Upstream { status: u16, body: String },
    /// A 2xx body that is not a token response; the decoder's description.
    Decode(String),
}

/// The access the login asks for: private profile, email and top items.
pub open spec fn scopes() -> Seq<char> {
    "user-read-private user-read-email user-top-read"@
}

/// Upstream authorization address for a PKCE login.
pub open spec fn login_url_text(
    client_id: Seq<char>,
    challenge: Seq<char>,
    method: Seq<char>,
    redirect_uri: Seq<char>,
) -> Seq<char> {
    "https://accounts.spotify.com/authorize?response_type=code&client_id="@ + client_id + "&scope="@
        + scopes() + "&redirect_uri="@ + redirect_uri + "&code_challenge="@ + challenge
        + "&code_challenge_method="@ + method + "&show_dialog=true"@
}

/// Form fields as pairs of character sequences.
pub open spec fn form_view(form: Seq<(String, String)>) -> Seq<(Seq<char>, Seq<char>)> {
    form.map_values(|f: (String, String)| (f.0@, f.1@))
}

/// The form of a PKCE code-for-token exchange.
pub open spec fn token_form_text(
    code: Seq<char>,
    verifier: Seq<char>,
    client_id: Seq<char>,
    redirect_uri: Seq<char>,
) -> Seq<(Seq<char>, Seq<char>)> {
    seq![
        ("grant_type"@, "authorization_code"@),
        ("code"@, code),
        ("redirect_uri"@, redirect_uri),
        ("client_id"@, client_id),
        ("code_verifier"@, verifier),
    ]
}

/// The text describing an exchange failure.
pub open spec fn exchange_error_text(e: ExchangeError) -> Seq<char> {
    match e {
        ExchangeError::Request(d) => "Request failed: "@ + d@,
        ExchangeError::BodyRead(d) => "Body read failed: "@ + d@,
        ExchangeError::Upstream { status, body } => "Spotify returned error: "@ + decimal(
            status as nat,
        ) + " -> "@ + body@,
        ExchangeError::Decode(d) => "Token deserialization failed: "@ + d@,
    }
}

/// The front-end origin: the redirect URI with every "/spotify-data" and
/// then every "/callback" taken out.
pub open spec fn cors_origin_text(redirect_uri: Seq<char>) -> Seq<char> {
    remove_all(remove_all(redirect_uri, "/spotify-data"@), "/callback"@)
}

impl Config {
    /// The origin allowed to call this server across origins.
    pub fn cors_origin(&self) -> (r: String)
        ensures
            r@ == cors_origin_text(self.redirect_uri@),
    {
        proof {
            reveal_strlit("/spotify-data");
            reveal_strlit("/callback");
        }
        let first = remove_all_text(self.redirect_uri.as_str(), "/spotify-data");
        remove_all_text(first.as_str(), "/callback")
    }
}

fn push_text(s: &mut String, t: &str)
    ensures
        final(s)@ == old(s)@ + t@,
{
    s.append(t);
}

/// Address that the login route redirects to (temporary redirect). The
/// challenge and its method are passed on unchecked.
pub fn login_url(q: &LoginQuery, redirect_uri: &str) -> (r: String)
    ensures
        r@ == login_url_text(q.client_id@, q.code_challenge@, q.code_challenge_method@, redirect_uri@),
{
    let mut url = String::from_str(
        "https://accounts.spotify.com/authorize?response_type=code&client_id=",
    );
    push_text(&mut url, q.client_id.as_str());
    push_text(&mut url, "&scope=");
    push_text(&mut url, "user-read-private user-read-email user-top-read");
    push_text(&mut url, "&redirect_uri=");
    push_text(&mut url, redirect_uri);
    push_text(&mut url, "&code_challenge=");
    push_text(&mut url, q.code_challenge.as_str());
    push_text(&mut url, "&code_challenge_method=");
    push_text(&mut url, q.code_challenge_method.as_str());
    push_text(&mut url, "&show_dialog=true");
    url
}

fn field(name: &str, value: &str) -> (r: (String, String))
    ensures
        r.0@ == name@,
        r.1@ == value@,
{
    (String::from_str(name), String::from_str(value))
}

/// Form fields of the PKCE code-for-token exchange, in this order:
/// grant type, code, redirect URI, client id, verifier.
pub fn token_form(code: &str, verifier: &str, client_id: &str, redirect_uri: &str) -> (r: Vec<
    (String, String),
>)
    ensures
        form_view(r@) == token_form_text(code@, verifier@, client_id@, redirect_uri@),
{
    let mut form: Vec<(String, String)> = Vec::new();
    form.push(field("grant_type", "authorization_code"));
    form.push(field("code", code));
    form.push(field("redirect_uri", redirect_uri));
    form.push(field("client_id", client_id));
    form.push(field("code_verifier", verifier));
    assert(form_view(form@) =~= token_form_text(code@, verifier@, client_id@, redirect_uri@));
    form
}

fn reject(body: String) -> (r: CallbackStep)
    ensures
        r matches CallbackStep::Reject(rep) && rep.status == BAD_REQUEST && rep.body == body,
{
    CallbackStep::Reject(Reply { status: BAD_REQUEST, body })
}

/// Decides the callback: exchange the code when code, verifier and client id
/// are all there; otherwise reject with 400 and say what is missing, or echo
/// the authorization server's error when no code came.
pub fn plan_callback(q: &CallbackQuery, redirect_uri: &str) -> (r: CallbackStep)
    ensures
        (q.code is Some && q.code_verifier is Some && q.client_id is Some) ==> (
        r matches CallbackStep::Exchange(form) && form_view(form@) == token_form_text(
            q.code->Some_0@,
            q.code_verifier->Some_0@,
            q.client_id->Some_0@,
            redirect_uri@,
        )),
        (q.code is Some && q.code_verifier is None) ==> (r matches CallbackStep::Reject(rep)
            && rep.status == BAD_REQUEST && rep.body@ == "Missing code_verifier in query"@),
        (q.code is Some && q.code_verifier is Some && q.client_id is None) ==> (
        r matches CallbackStep::Reject(rep) && rep.status == BAD_REQUEST && rep.body@
            == "Missing client_id in query"@),
        (q.code is None && q.error is Some) ==> (r matches CallbackStep::Reject(rep) && rep.status
            == BAD_REQUEST && rep.body@ == "Spotify error: "@ + q.error->Some_0@),
        (q.code is None && q.error is None) ==> (r matches CallbackStep::Reject(rep) && rep.status
            == BAD_REQUEST && rep.body@ == "Missing `code` in query"@),
{
    match (&q.code, &q.code_verifier, &q.client_id) {
        (Some(code), Some(verifier), Some(client_id)) => CallbackStep::Exchange(
            token_form(code.as_str(), verifier.as_str(), client_id.as_str(), redirect_uri),
        ),
        (Some(_), None, _) => reject(String::from_str("Missing code_verifier in query")),
        (Some(_), Some(_), None) => reject(String::from_str("Missing client_id in query")),
        (None, _, _) => match &q.error {
            Some(e) => reject(String::from_str("Spotify error: ").concat(e.as_str())),
            None => reject(String::from_str("Missing `code` in query")),
        },
    }
}

/// Outcome of a token exchange once upstream has answered with `status` and
/// `body`, and the body has been decoded as a token response into `parsed`
/// (`Err`: the decoder's description). The decoded token is returned as is.
pub fn finish_exchange(status: u16, body: String, parsed: Result<TokenResponse, String>) -> (r:
    Result<TokenResponse, ExchangeError>)
    ensures
        !is_success(status) ==> r == Err::<TokenResponse, ExchangeError>(
            ExchangeError::Upstream { status, body },
        ),
        is_success(status) ==> r == match parsed {
            Ok(t) => Ok::<TokenResponse, ExchangeError>(t),
            Err(d) => Err(ExchangeError::Decode(d)),
        },
{
    if status < 200 || status > 299 {
        return Err(ExchangeError::Upstream { status, body });
    }
    match parsed {
        Ok(t) => Ok(t),
        Err(d) => Err(ExchangeError::Decode(d)),
    }
}

impl ExchangeError {
    /// Human-readable description of the failure.
    pub fn message(&self) -> (r: String)
        ensures
            r@ == exchange_error_text(*self),
    {
        match self {
            ExchangeError::Request(d) => String::from_str("Request failed: ").concat(d.as_str()),
            ExchangeError::BodyRead(d) => String::from_str("Body read failed: ").concat(d.as_str()),
            ExchangeError::Upstream { status, body } => {
                let mut m = String::from_str("Spotify returned error: ");
                let code = decimal_text(*status);
                push_text(&mut m, code.as_str());
                push_text(&mut m, " -> ");
                push_text(&mut m, body.as_str());
                m
            },
            ExchangeError::Decode(d) => String::from_str("Token deserialization failed: ").concat(
                d.as_str(),
            ),
        }
    }
}

/// Reply of the callback route when the exchange failed: 500 and
/// "Token error: " followed by the failure's description.
pub fn exchange_failure_reply(e: &ExchangeError) -> (r: Reply)
    ensures
        r.status == TOKEN_EXCHANGE_FAILED,
        r.body@ == "Token error: "@ + exchange_error_text(*e),
{
    let m = e.message();
    Reply { status: TOKEN_EXCHANGE_FAILED, body: String::from_str("Token error: ").concat(m.as_str()) }
}

} // verus!
