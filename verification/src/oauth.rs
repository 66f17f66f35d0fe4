//! The sign-in with Basecamp: the address to send the browser to, and
//! how the answers that come back are read.

use crate::label::{percent_encode, percent_escaped};
use crate::text::starts_with;
use vstd::prelude::*;
use vstd::string::*;
use vstd::utf8::*;

verus! {

/// Where the sign-in answers during development.
pub const BC_REDIRECT_URI_DEV: &'static str = "http://localhost:3000/callback";

/// Where the sign-in answers in production.
pub const BC_REDIRECT_URI_PROD: &'static str =
    "https://redd-todo.netlify.app/.netlify/functions/auth";

/// The client identifier used during development.
pub const BC_CLIENT_ID_DEV: &'static str = "aed7f4889aa6bb83b74e8e494e70701d59d1c9c5";

/// The start of the address that asks for authorization.
pub const AUTHORIZATION_URL: &'static str =
    "https://launchpad.37signals.com/authorization/new?type=web_server&client_id=";

/// What the browser is shown once the sign-in went through.
pub const SUCCESS_PAGE: &'static str = "<html><body style=\"font-family: system-ui; text-align: center; padding-top: 50px;\">
                                <h1>Authentication successful!</h1>
                                <p>You can close this window and return to ReDD Do.</p>
                                <script>window.close()</script>
                                </body></html>";

/// The view of an optional text.
pub open spec fn option_text(text: Option<String>) -> Option<Seq<char>> {
    match text {
        Some(t) => Some(t@),
        None => None,
    }
}

/// The client identifier in use: the development one during development,
/// else the configured one, or nothing where none is configured.
pub open spec fn client_id_of(is_dev: bool, configured: Option<Seq<char>>) -> Seq<char> {
    if is_dev {
        BC_CLIENT_ID_DEV@
    } else {
        match configured {
            Some(id) => id,
            None => Seq::empty(),
        }
    }
}

/// Picks the client identifier. `configured` is what the environment
/// holds for production.
pub fn get_client_id(is_dev: bool, configured: Option<String>) -> (id: String)
    ensures
        id@ == client_id_of(is_dev, option_text(configured)),
{
    if is_dev {
        String::from_str(BC_CLIENT_ID_DEV)
    } else {
        match configured {
            Some(id) => id,
            None => String::new(),
        }
    }
}

/// The address that answers the sign-in.
pub open spec fn redirect_uri(is_dev: bool) -> Seq<char> {
    if is_dev {
        BC_REDIRECT_URI_DEV@
    } else {
        BC_REDIRECT_URI_PROD@
    }
}

/// The address to send the browser to, or why there is none.
pub open spec fn authorization(is_dev: bool, client_id: Seq<char>) -> Result<Seq<char>, Seq<char>> {
    if client_id.len() == 0 {
        Err("BASECAMP_CLIENT_ID not configured"@)
    } else {
        Ok(
            AUTHORIZATION_URL@ + client_id + "&redirect_uri="@ + percent_escaped(
                encode_utf8(redirect_uri(is_dev)),
            ),
        )
    }
}

/// The view of a result of texts.
pub open spec fn outcome_view(r: Result<String, String>) -> Result<Seq<char>, Seq<char>> {
    match r {
        Ok(t) => Ok(t@),
        Err(e) => Err(e@),
    }
}

/// Starts the sign-in: gives the address that the adapter opens in the
/// browser, or the complaint that no client identifier is configured.
/// During development the adapter listens for the answer itself.
pub fn start_basecamp_auth(is_dev: bool, client_id: &str) -> (address: Result<String, String>)
    ensures
        outcome_view(address) == authorization(is_dev, client_id@),
{
    if client_id.unicode_len() == 0 {
        return Err(String::from_str("BASECAMP_CLIENT_ID not configured"));
    }
    let redirect = if is_dev {
        BC_REDIRECT_URI_DEV
    } else {
        BC_REDIRECT_URI_PROD
    };
    Ok(
        String::from_str(AUTHORIZATION_URL).concat(client_id).concat("&redirect_uri=").concat(
            percent_encode(redirect).as_str(),
        ),
    )
}

// --------------------------------------------------------------- queries

/// The pairs of the query of an address, in order, as `url::Url::parse`
/// and `Url::query_pairs` find them; or the words of the parser's error
/// where the text is no absolute address.
pub uninterp spec fn url_query(text: Seq<char>) -> Result<Seq<(Seq<char>, Seq<char>)>, Seq<char>>;

/// The views of a list of pairs.
pub open spec fn pairs_view(pairs: Seq<(String, String)>) -> Seq<(Seq<char>, Seq<char>)> {
    pairs.map_values(|p: (String, String)| (p.0@, p.1@))
}

/// The view of a parsed query.
pub open spec fn query_view(query: Result<Vec<(String, String)>, String>) -> Result<
    Seq<(Seq<char>, Seq<char>)>,
    Seq<char>,
> {
    match query {
        Ok(pairs) => Ok(pairs_view(pairs@)),
        Err(e) => Err(e@),
    }
}

/// Calls `url::Url::parse` and, on the address it gives,
/// `Url::query_pairs`, which reads the query as a form's key and value
/// pairs. What comes back depends on the text alone and is only named
/// here.
#[verifier::external_body]
fn query_pairs(text: &str) -> (query: Result<Vec<(String, String)>, String>)
    ensures
        query_view(query) == url_query(text@),
{
    match url::Url::parse(text) {
        Ok(parsed) => Ok(
            parsed.query_pairs().map(|(k, v)| (k.into_owned(), v.into_owned())).collect(),
        ),
        Err(e) => Err(e.to_string()),
    }
}

/// The value of the first pair whose key is `key`.
pub open spec fn first_value(pairs: Seq<(Seq<char>, Seq<char>)>, key: Seq<char>) -> Option<
    Seq<char>,
>
    decreases pairs.len(),
{
    if pairs.len() == 0 {
        None
    } else if pairs[0].0 == key {
        Some(pairs[0].1)
    } else {
        first_value(pairs.drop_first(), key)
    }
}

fn find_value(pairs: &Vec<(String, String)>, key: &str) -> (value: Option<String>)
    ensures
        option_text(value) == first_value(pairs_view(pairs@), key@),
{
    let wanted = key.to_owned();
    let ghost all = pairs_view(pairs@);
    let mut i: usize = 0;
    assert(all.skip(0) =~= all);
    while i < pairs.len()
        invariant
            i <= pairs.len(),
            all == pairs_view(pairs@),
            wanted@ == key@,
            first_value(all, key@) == first_value(all.skip(i as int), key@),
        decreases pairs.len() - i,
    {
        let ghost here = all.skip(i as int);
        assert(here[0] == all[i as int]);
        assert(all[i as int] == (pairs@[i as int].0@, pairs@[i as int].1@));
        assert(here.drop_first() =~= all.skip(i + 1));
        if pairs[i].0 == wanted {
            return Some(pairs[i].1.clone());
        }
        i += 1;
    }
    assert(all.skip(i as int).len() == 0);
    None
}

// ------------------------------------------------- the answer by address

/// What a sign-in hands over once it went through.
#[derive(Clone, Debug, PartialEq, Eq)]
pub struct AuthTokens {
    pub access_token: String,
    pub refresh_token: Option<String>,
    pub expires_in: Option<String>,
    pub client_id: String,
}

/// [`AuthTokens`] as character sequences.
pub struct AuthTokensView {
    pub access_token: Seq<char>,
    pub refresh_token: Option<Seq<char>>,
    pub expires_in: Option<Seq<char>>,
    pub client_id: Seq<char>,
}

impl View for AuthTokens {
    type V = AuthTokensView;

    open spec fn view(&self) -> AuthTokensView {
        AuthTokensView {
            access_token: self.access_token@,
            refresh_token: option_text(self.refresh_token),
            expires_in: option_text(self.expires_in),
            client_id: self.client_id@,
        }
    }
}

/// The view of a read answer.
pub open spec fn tokens_view(r: Result<AuthTokens, String>) -> Result<AuthTokensView, Seq<char>> {
    match r {
        Ok(t) => Ok(t@),
        Err(e) => Err(e@),
    }
}

/// What the answer to a sign-in says.
///
/// An address that cannot be parsed is a failure. An `error` in the query
/// is one too, told in the words of `error_description`, or without that
/// in its own. Else the `access_token` is handed over, with the
/// `refresh_token` and `expires_in` beside it where they are given, and
/// the client identifier; without an `access_token` the answer is a
/// failure.
pub open spec fn callback_reading(
    query: Result<Seq<(Seq<char>, Seq<char>)>, Seq<char>>,
    client_id: Seq<char>,
) -> Result<AuthTokensView, Seq<char>> {
    match query {
        Err(e) => Err("Failed to parse OAuth URL: "@ + e),
        Ok(pairs) => match first_value(pairs, "error"@) {
            Some(error) => Err(
                match first_value(pairs, "error_description"@) {
                    Some(words) => words,
                    None => error,
                },
            ),
            None => match first_value(pairs, "access_token"@) {
                Some(token) => Ok(
                    AuthTokensView {
                        access_token: token,
                        refresh_token: first_value(pairs, "refresh_token"@),
                        expires_in: first_value(pairs, "expires_in"@),
                        client_id,
                    },
                ),
                None => Err("No access token received"@),
            },
        },
    }
}

/// Reads the parsed query of the answer to a sign-in. See
/// [`callback_reading`].
pub fn read_oauth_callback(query: Result<Vec<(String, String)>, String>, client_id: String) -> (reading:
    Result<AuthTokens, String>)
    ensures
        tokens_view(reading) == callback_reading(query_view(query), client_id@),
{
    let pairs = match query {
        Ok(pairs) => pairs,
        Err(e) => {
            return Err(String::from_str("Failed to parse OAuth URL: ").concat(e.as_str()));
        },
    };
    match find_value(&pairs, "error") {
        Some(error) => {
            return Err(
                match find_value(&pairs, "error_description") {
                    Some(words) => words,
                    None => error,
                },
            );
        },
        None => {},
    }
    match find_value(&pairs, "access_token") {
        Some(access_token) => Ok(
            AuthTokens {
                access_token,
                refresh_token: find_value(&pairs, "refresh_token"),
                expires_in: find_value(&pairs, "expires_in"),
                client_id,
            },
        ),
        None => Err(String::from_str("No access token received")),
    }
}

/// Reads the address that answers a sign-in in production. The adapter
/// tells the primary window what came of it.
pub fn handle_oauth_callback(url: &str, is_dev: bool, configured: Option<String>) -> (reading: Result<
    AuthTokens,
    String,
>)
    ensures
        tokens_view(reading) == callback_reading(
            url_query(url@),
            client_id_of(is_dev, option_text(configured)),
        ),
{
    read_oauth_callback(query_pairs(url), get_client_id(is_dev, configured))
}

// ------------------------------------------------ the answer by listener

/// What the listener does with a request.
#[derive(Clone, Debug, PartialEq, Eq)]
pub enum CallbackRoute {
    /// The request is not for the listener: answer 404.
    NotFound,
    /// The request cannot be read as an address: no answer.
    Unreadable,
    /// The request holds no code: answer 400.
    MissingCode,
    /// Exchange the code for tokens.
    Exchange { code: String },
}

/// [`CallbackRoute`] as character sequences.
pub enum CallbackRouteView {
    NotFound,
    Unreadable,
    MissingCode,
    Exchange { code: Seq<char> },
}

impl View for CallbackRoute {
    type V = CallbackRouteView;

    open spec fn view(&self) -> CallbackRouteView {
        match self {
            CallbackRoute::NotFound => CallbackRouteView::NotFound,
            CallbackRoute::Unreadable => CallbackRouteView::Unreadable,
            CallbackRoute::MissingCode => CallbackRouteView::MissingCode,
            CallbackRoute::Exchange { code } => CallbackRouteView::Exchange { code: code@ },
        }
    }
}

/// The route for a request, given the parsed query of its full address.
pub open spec fn route_of(
    path: Seq<char>,
    query: Result<Seq<(Seq<char>, Seq<char>)>, Seq<char>>,
) -> CallbackRouteView {
    if !"/callback"@.is_prefix_of(path) {
        CallbackRouteView::NotFound
    } else {
        match query {
            Err(_) => CallbackRouteView::Unreadable,
            Ok(pairs) => match first_value(pairs, "code"@) {
                Some(code) => CallbackRouteView::Exchange { code },
                None => CallbackRouteView::MissingCode,
            },
        }
    }
}

/// Decides the route for a request from its path and the parsed query of
/// its full address. See [`route_of`].
pub fn route_callback(path: &str, query: Result<Vec<(String, String)>, String>) -> (route:
    CallbackRoute)
    ensures
        route@ == route_of(path@, query_view(query)),
{
    if !starts_with(path, "/callback") {
        return CallbackRoute::NotFound;
    }
    match query {
        Err(_) => CallbackRoute::Unreadable,
        Ok(pairs) => match find_value(&pairs, "code") {
            Some(code) => CallbackRoute::Exchange { code },
            None => CallbackRoute::MissingCode,
        },
    }
}

/// Decides what the listener does with the one request it waits for.
/// `path` is the request's target, to which the listener's own address is
/// prefixed before it is parsed.
pub fn start_local_callback_server(path: &str) -> (route: CallbackRoute)
    ensures
        route@ == route_of(path@, url_query("http://localhost:3000"@ + path@)),
{
    let full = String::from_str("http://localhost:3000").concat(path);
    route_callback(path, query_pairs(full.as_str()))
}

/// An answer to the browser.
#[derive(Clone, Debug, PartialEq, Eq)]
pub struct HttpReply {
    pub status: u16,
    pub body: String,
    pub html: bool,
}

/// The answer for a request that took no exchange: none for an
/// unreadable one.
pub fn route_reply(route: &CallbackRoute) -> (reply: Option<HttpReply>)
    ensures
        match route@ {
            CallbackRouteView::NotFound => reply matches Some(r) && r.status == 404 && r.body@
                == "Not found"@ && !r.html,
            CallbackRouteView::MissingCode => reply matches Some(r) && r.status == 400 && r.body@
                == "No authorization code received"@ && !r.html,
            _ => reply is None,
        },
{
    match route {
        CallbackRoute::NotFound => Some(
            HttpReply { status: 404, body: String::from_str("Not found"), html: false },
        ),
        CallbackRoute::MissingCode => Some(
            HttpReply {
                status: 400,
                body: String::from_str("No authorization code received"),
                html: false,
            },
        ),
        _ => None,
    }
}

/// The answer after an exchange: the success page, or 500 with the
/// reason.
pub fn exchange_reply(failure: Option<&str>) -> (reply: HttpReply)
    ensures
        match failure {
            None => reply.status == 200 && reply.body@ == SUCCESS_PAGE@ && reply.html,
            Some(reason) => reply.status == 500 && reply.body@ == "Authentication failed: "@
                + reason@ && !reply.html,
        },
{
    match failure {
        None => HttpReply { status: 200, body: String::from_str(SUCCESS_PAGE), html: true },
        Some(reason) => HttpReply {
            status: 500,
            body: String::from_str("Authentication failed: ").concat(reason),
            html: false,
        },
    }
}

// ------------------------------------------------------------ deep links

/// The start of every address that the application is registered for.
pub const DEEP_LINK_SCHEME: &'static str = "redddo://";

/// The text is an address for the application.
pub open spec fn is_deep_link(text: Seq<char>) -> bool {
    DEEP_LINK_SCHEME@.is_prefix_of(text)
}

/// Finds the first of the arguments of a second launch that is an address
/// for the application, which the running one is then told.
pub fn deep_link_argument(arguments: &Vec<String>) -> (found: Option<usize>)
    ensures
        match found {
            Some(at) => at < arguments.len() && is_deep_link(arguments[at as int]@) && forall|
                j: int,
            |
                0 <= j < at ==> !is_deep_link(#[trigger] arguments[j]@),
            None => forall|j: int|
                0 <= j < arguments.len() ==> !is_deep_link(#[trigger] arguments[j]@),
        },
{
    let mut i: usize = 0;
    while i < arguments.len()
        invariant
            i <= arguments.len(),
            forall|j: int| 0 <= j < i ==> !is_deep_link(#[trigger] arguments[j]@),
        decreases arguments.len() - i,
    {
        if starts_with(arguments[i].as_str(), DEEP_LINK_SCHEME) {
            return Some(i);
        }
        i += 1;
    }
    None
}

} // verus!
