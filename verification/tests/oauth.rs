use redd_do_core::oauth::{
    deep_link_argument, exchange_reply, get_client_id, handle_oauth_callback, read_oauth_callback, route_callback,
    route_reply, start_basecamp_auth, start_local_callback_server, AuthTokens, CallbackRoute,
    HttpReply, BC_CLIENT_ID_DEV,
};

fn pairs(items: &[(&str, &str)]) -> Result<Vec<(String, String)>, String> {
    Ok(items.iter().map(|(k, v)| (k.to_string(), v.to_string())).collect())
}

#[test]
fn development_uses_its_own_client_identifier() {
    assert_eq!(get_client_id(true, None), BC_CLIENT_ID_DEV);
    assert_eq!(get_client_id(true, Some("configured".to_string())), BC_CLIENT_ID_DEV);
}

#[test]
fn production_uses_the_configured_client_identifier() {
    assert_eq!(get_client_id(false, Some("configured".to_string())), "configured");
    assert_eq!(get_client_id(false, None), "");
}

#[test]
fn sign_in_without_client_identifier_is_refused() {
    assert_eq!(start_basecamp_auth(true, ""), Err("BASECAMP_CLIENT_ID not configured".to_string()));
    assert_eq!(start_basecamp_auth(false, ""), Err("BASECAMP_CLIENT_ID not configured".to_string()));
}

#[test]
fn sign_in_address_carries_the_escaped_redirect() {
    assert_eq!(
        start_basecamp_auth(true, "abc"),
        Ok("https://launchpad.37signals.com/authorization/new?type=web_server&client_id=abc&redirect_uri=http%3A%2F%2Flocalhost%3A3000%2Fcallback".to_string())
    );
    assert_eq!(
        start_basecamp_auth(false, "abc"),
        Ok("https://launchpad.37signals.com/authorization/new?type=web_server&client_id=abc&redirect_uri=https%3A%2F%2Fredd-todo.netlify.app%2F.netlify%2Ffunctions%2Fauth".to_string())
    );
}

#[test]
fn callback_with_tokens_hands_them_over() {
    let reading = handle_oauth_callback(
        "redddo://auth?access_token=tok%20en&refresh_token=r1&expires_in=3600",
        false,
        Some("cid".to_string()),
    );
    assert_eq!(
        reading,
        Ok(AuthTokens {
            access_token: "tok en".to_string(),
            refresh_token: Some("r1".to_string()),
            expires_in: Some("3600".to_string()),
            client_id: "cid".to_string(),
        })
    );
}

#[test]
fn callback_with_only_an_access_token_leaves_the_rest_out() {
    let reading = handle_oauth_callback("redddo://auth?access_token=t", true, None);
    assert_eq!(
        reading,
        Ok(AuthTokens {
            access_token: "t".to_string(),
            refresh_token: None,
            expires_in: None,
            client_id: BC_CLIENT_ID_DEV.to_string(),
        })
    );
}

#[test]
fn callback_with_an_error_tells_its_description() {
    assert_eq!(
        handle_oauth_callback("redddo://auth?error=denied&error_description=User+said+no&access_token=t", true, None),
        Err("User said no".to_string())
    );
    assert_eq!(
        handle_oauth_callback("redddo://auth?access_token=t&error=denied", true, None),
        Err("denied".to_string())
    );
}

#[test]
fn callback_without_access_token_is_a_failure() {
    assert_eq!(
        handle_oauth_callback("redddo://auth?refresh_token=r", true, None),
        Err("No access token received".to_string())
    );
    assert_eq!(
        handle_oauth_callback("redddo://auth", true, None),
        Err("No access token received".to_string())
    );
}

#[test]
fn callback_that_is_no_address_is_a_failure() {
    let reading = handle_oauth_callback("not an address", true, None);
    let words = reading.unwrap_err();
    assert!(words.starts_with("Failed to parse OAuth URL: "));
    assert!(words.len() > "Failed to parse OAuth URL: ".len());
}

#[test]
fn first_pair_of_a_key_wins() {
    let reading = read_oauth_callback(
        pairs(&[("access_token", "one"), ("access_token", "two"), ("expires_in", ""), ("Refresh_token", "x")]),
        "cid".to_string(),
    );
    assert_eq!(
        reading,
        Ok(AuthTokens {
            access_token: "one".to_string(),
            refresh_token: None,
            expires_in: Some(String::new()),
            client_id: "cid".to_string(),
        })
    );
}

#[test]
fn parser_error_is_handed_on_in_its_words() {
    assert_eq!(
        read_oauth_callback(Err("relative URL without a base".to_string()), "cid".to_string()),
        Err("Failed to parse OAuth URL: relative URL without a base".to_string())
    );
}

#[test]
fn listener_exchanges_the_code_of_a_callback() {
    assert_eq!(
        start_local_callback_server("/callback?code=a%2Fb&state=1"),
        CallbackRoute::Exchange { code: "a/b".to_string() }
    );
    assert_eq!(
        start_local_callback_server("/callback?x=1&code=first&code=second"),
        CallbackRoute::Exchange { code: "first".to_string() }
    );
}

#[test]
fn listener_misses_the_code_where_there_is_none() {
    assert_eq!(start_local_callback_server("/callback"), CallbackRoute::MissingCode);
    assert_eq!(start_local_callback_server("/callback?error=denied"), CallbackRoute::MissingCode);
    assert_eq!(start_local_callback_server("/callbackextra?Code=1"), CallbackRoute::MissingCode);
}

#[test]
fn listener_knows_no_other_path() {
    assert_eq!(start_local_callback_server("/"), CallbackRoute::NotFound);
    assert_eq!(start_local_callback_server("/favicon.ico"), CallbackRoute::NotFound);
    assert_eq!(start_local_callback_server("/Callback?code=1"), CallbackRoute::NotFound);
    assert_eq!(start_local_callback_server(""), CallbackRoute::NotFound);
}

#[test]
fn route_goes_by_path_first_then_by_query() {
    assert_eq!(route_callback("/other", pairs(&[("code", "1")])), CallbackRoute::NotFound);
    assert_eq!(route_callback("/callback", Err("bad".to_string())), CallbackRoute::Unreadable);
    assert_eq!(route_callback("/callback", pairs(&[])), CallbackRoute::MissingCode);
    assert_eq!(
        route_callback("/callback", pairs(&[("code", "")])),
        CallbackRoute::Exchange { code: String::new() }
    );
}

#[test]
fn replies_without_exchange() {
    assert_eq!(
        route_reply(&CallbackRoute::NotFound),
        Some(HttpReply { status: 404, body: "Not found".to_string(), html: false })
    );
    assert_eq!(
        route_reply(&CallbackRoute::MissingCode),
        Some(HttpReply { status: 400, body: "No authorization code received".to_string(), html: false })
    );
    assert_eq!(route_reply(&CallbackRoute::Unreadable), None);
    assert_eq!(route_reply(&CallbackRoute::Exchange { code: "c".to_string() }), None);
}

#[test]
fn replies_after_exchange() {
    let ok = exchange_reply(None);
    assert_eq!(ok.status, 200);
    assert!(ok.html);
    assert!(ok.body.starts_with("<html><body style=\"font-family: system-ui;"));
    assert!(ok.body.contains("<h1>Authentication successful!</h1>"));
    assert!(ok.body.ends_with("</body></html>"));
    assert_eq!(
        exchange_reply(Some("Token exchange failed: nope")),
        HttpReply { status: 500, body: "Authentication failed: Token exchange failed: nope".to_string(), html: false }
    );
}

#[test]
fn first_deep_link_among_the_arguments_is_found() {
    let arguments: Vec<String> = ["app", "--flag", "redddo://auth?x=1", "redddo://other"]
        .iter()
        .map(|a| a.to_string())
        .collect();
    assert_eq!(deep_link_argument(&arguments), Some(2));
}

#[test]
fn arguments_without_deep_link_give_none() {
    let arguments: Vec<String> =
        ["app", "redddo:/x", "Redddo://x", " redddo://x", ""].iter().map(|a| a.to_string()).collect();
    assert_eq!(deep_link_argument(&arguments), None);
    assert_eq!(deep_link_argument(&Vec::new()), None);
}
