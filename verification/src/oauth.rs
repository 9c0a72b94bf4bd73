//! Signing in to Google: the address that is opened, the callback that comes back, and
//! the tokens.

use vstd::prelude::*;
use vstd::string::*;

use crate::services::bytes;
use crate::services::digest;
use crate::services::ids;
use crate::services::web;
use crate::text;

verus! {

/// Where the user signs in.
pub const AUTH_ADDRESS: &'static str = "https://accounts.google.com/o/oauth2/v2/auth";

/// Where codes and refresh tokens are exchanged for access tokens.
pub const TOKEN_ADDRESS: &'static str = "https://oauth2.googleapis.com/token";

/// What the program asks to be allowed to do.
pub const UPLOAD_SCOPE: &'static str = "https://www.googleapis.com/auth/youtube.upload";

/// How signing in ended.
#[derive(Debug)]
pub enum YouTubeAuthEvent {
    Connected,
    Failed(String),
}

/// One sign-in: what is remembered until the callback comes, and the address to open.
#[derive(Debug)]
pub struct OAuthRequest {
    pub client_id: String,
    pub client_secret: String,
    pub redirect_uri: String,
    pub state: String,
    pub verifier: String,
    pub auth_url: String,
}

/// Whether a client can sign in at all.
pub fn check_client_id(client_id: &str) -> (r: Result<(), String>)
    ensures
        match r {
            Ok(_) => text::trim(client_id@).len() > 0,
            Err(message) => text::trim(client_id@).len() == 0 && message@
                == "Enter a Google OAuth desktop client ID first"@,
        },
{
    let trimmed = text::trimmed(client_id);
    if trimmed.as_str().is_empty() {
        Err("Enter a Google OAuth desktop client ID first".to_owned())
    } else {
        Ok(())
    }
}

/// The address that Google sends the user back to.
pub open spec fn callback_address(port: nat) -> Seq<char> {
    "http://127.0.0.1:"@ + text::decimal(port) + "/oauth/callback"@
}

/// The proof of possession that is sent ahead of the verifier.
pub open spec fn challenge(verifier: Seq<char>) -> Seq<char> {
    digest::base64_url(digest::sha256(vstd::utf8::encode_utf8(verifier)))
}

/// What the sign-in page is asked.
pub open spec fn sign_in_query(
    client_id: Seq<char>,
    redirect_uri: Seq<char>,
    state: Seq<char>,
    verifier: Seq<char>,
) -> Seq<(Seq<char>, Seq<char>)> {
    seq![
        ("client_id"@, text::trim(client_id)),
        ("redirect_uri"@, redirect_uri),
        ("response_type"@, "code"@),
        ("scope"@, UPLOAD_SCOPE@),
        ("access_type"@, "offline"@),
        ("prompt"@, "consent"@),
        ("state"@, state),
        ("code_challenge"@, challenge(verifier)),
        ("code_challenge_method"@, "S256"@),
    ]
}

/// Appends a named value.
fn push_pair(pairs: &mut Vec<(String, String)>, name: &str, value: &str)
    ensures
        web::pairs_view(final(pairs)@) == web::pairs_view(old(pairs)@).push((name@, value@)),
{
    pairs.push((name.to_owned(), value.to_owned()));
    assert(web::pairs_view(pairs@) =~= web::pairs_view(old(pairs)@).push((name@, value@)));
}

impl OAuthRequest {
    /// This is the sign-in of a client at `port` under these three identifiers.
    pub open spec fn signs_in(
        self,
        client_id: Seq<char>,
        client_secret: Seq<char>,
        port: nat,
        state_id: nat,
        first_id: nat,
        second_id: nat,
    ) -> bool {
        &&& self.client_id@ == client_id
        &&& self.client_secret@ == client_secret
        &&& self.redirect_uri@ == callback_address(port)
        &&& self.state@ == ids::hex(state_id, 32)
        &&& self.verifier@ == ids::hex(first_id, 32) + ids::hex(second_id, 32)
        &&& web::address_with_query(
            AUTH_ADDRESS@,
            sign_in_query(self.client_id@, self.redirect_uri@, self.state@, self.verifier@),
        ) == Ok::<_, Seq<char>>(self.auth_url@)
    }

    /// The sign-in of a client whose callback comes to `port`, under these identifiers.
    pub fn prepare(
        client_id: String,
        client_secret: String,
        port: u16,
        state_id: u128,
        first_id: u128,
        second_id: u128,
    ) -> (r: Result<OAuthRequest, String>)
        ensures
            match r {
                Ok(request) => request.signs_in(
                    client_id@,
                    client_secret@,
                    port as nat,
                    state_id as nat,
                    first_id as nat,
                    second_id as nat,
                ),
                Err(message) => web::address_with_query(
                    AUTH_ADDRESS@,
                    sign_in_query(
                        client_id@,
                        callback_address(port as nat),
                        ids::hex(state_id as nat, 32),
                        ids::hex(first_id as nat, 32) + ids::hex(second_id as nat, 32),
                    ),
                ) == Err::<Seq<char>, _>(message@),
            },
    {
        let mut redirect_uri = "http://127.0.0.1:".to_owned();
        text::push_decimal(&mut redirect_uri, port as u64);
        redirect_uri.append("/oauth/callback");
        let state = ids::simple_text(state_id);
        let mut verifier = ids::simple_text(first_id);
        let second = ids::simple_text(second_id);
        verifier.append(second.as_str());
        let hashed = digest::sha256_digest(verifier.as_str().as_bytes());
        let challenge_text = digest::encode_base64(hashed.as_slice());
        let trimmed = text::trimmed(client_id.as_str());
        let mut pairs: Vec<(String, String)> = Vec::new();
        assert(web::pairs_view(pairs@) =~= Seq::empty());
        push_pair(&mut pairs, "client_id", trimmed.as_str());
        push_pair(&mut pairs, "redirect_uri", redirect_uri.as_str());
        push_pair(&mut pairs, "response_type", "code");
        push_pair(&mut pairs, "scope", UPLOAD_SCOPE);
        push_pair(&mut pairs, "access_type", "offline");
        push_pair(&mut pairs, "prompt", "consent");
        push_pair(&mut pairs, "state", state.as_str());
        push_pair(&mut pairs, "code_challenge", challenge_text.as_str());
        push_pair(&mut pairs, "code_challenge_method", "S256");
        proof {
            assert(web::pairs_view(pairs@) =~= sign_in_query(
                client_id@,
                redirect_uri@,
                state@,
                verifier@,
            ));
            reveal_strlit("https://accounts.google.com/o/oauth2/v2/auth");
            assert(!AUTH_ADDRESS@.contains('#'));
        }
        match web::append_query(AUTH_ADDRESS, &pairs) {
            Ok(auth_url) => Ok(
                OAuthRequest { client_id, client_secret, redirect_uri, state, verifier, auth_url },
            ),
            Err(message) => Err(message),
        }
    }
}

/// A new sign-in of a client whose callback comes to `port`, under random identifiers.
pub fn start_youtube_oauth(client_id: String, client_secret: String, port: u16) -> (r: Result<
    OAuthRequest,
    String,
>)
    ensures
        text::trim(client_id@).len() == 0 ==> (r matches Err(message) && message@
            == "Enter a Google OAuth desktop client ID first"@),
        text::trim(client_id@).len() > 0 ==> exists|state_id: u128, first_id: u128, second_id: u128|
            #![trigger ids::is_drawn(state_id), ids::is_drawn(first_id), ids::is_drawn(second_id)]
            ids::is_drawn(state_id) && ids::is_drawn(first_id) && ids::is_drawn(second_id)
                && match r {
                Ok(request) => request.signs_in(
                    client_id@,
                    client_secret@,
                    port as nat,
                    state_id as nat,
                    first_id as nat,
                    second_id as nat,
                ),
                Err(message) => web::address_with_query(
                    AUTH_ADDRESS@,
                    sign_in_query(
                        client_id@,
                        callback_address(port as nat),
                        ids::hex(state_id as nat, 32),
                        ids::hex(first_id as nat, 32) + ids::hex(second_id as nat, 32),
                    ),
                ) == Err::<Seq<char>, _>(message@),
            },
{
    match check_client_id(client_id.as_str()) {
        Err(message) => Err(message),
        Ok(_) => {
            let state_id = ids::random_id();
            let first_id = ids::random_id();
            let second_id = ids::random_id();
            OAuthRequest::prepare(client_id, client_secret, port, state_id, first_id, second_id)
        },
    }
}

/// A sign-in has a state of 32 and a verifier of 64 hexadecimal digits, as long as the
/// protocol asks for.
pub proof fn sign_in_secrets_are_well_formed(
    request: OAuthRequest,
    client_id: Seq<char>,
    client_secret: Seq<char>,
    port: nat,
    state_id: nat,
    first_id: nat,
    second_id: nat,
)
    requires
        request.signs_in(client_id, client_secret, port, state_id, first_id, second_id),
    ensures
        request.state@.len() == 32,
        request.verifier@.len() == 64,
        forall|i: int|
            0 <= i < request.verifier@.len() ==> {
                let c = #[trigger] request.verifier@[i];
                '0' <= c <= '9' || 'a' <= c <= 'f'
            },
{
    ids::lemma_hex(state_id, 32);
    ids::lemma_hex(first_id, 32);
    ids::lemma_hex(second_id, 32);
    assert forall|i: int| 0 <= i < request.verifier@.len() implies {
        let c = #[trigger] request.verifier@[i];
        '0' <= c <= '9' || 'a' <= c <= 'f'
    } by {
        if i < 32 {
            assert(request.verifier@[i] == ids::hex(first_id, 32)[i]);
        } else {
            assert(request.verifier@[i] == ids::hex(second_id, 32)[i - 32]);
        }
    }
}

/// What a browser asks for: the second word of the first line of its request.
pub open spec fn target_of(request: Seq<char>) -> Option<Seq<char>> {
    let lines = text::lines(request);
    if lines.len() > 0 {
        text::second_word(lines[0])
    } else {
        None
    }
}

/// What a browser asks for.
pub fn request_target(request: &str) -> (r: Result<String, String>)
    ensures
        match r {
            Ok(target) => target_of(request@) == Some(target@),
            Err(message) => target_of(request@) is None && message@
                == "Google returned an invalid callback"@,
        },
{
    let lines = text::lines_of(request);
    if lines.len() > 0 {
        assert(lines.deep_view()[0] == lines@[0]@);
        if let Some(target) = text::word_two(lines[0].as_str()) {
            return Ok(target);
        }
    }
    Err("Google returned an invalid callback".to_owned())
}

/// The value that goes by `name`: the last one where there are several.
pub open spec fn value_of(pairs: Seq<(Seq<char>, Seq<char>)>, name: Seq<char>) -> Option<Seq<char>>
    decreases pairs.len(),
{
    if pairs.len() == 0 {
        None
    } else if pairs.last().0 == name {
        Some(pairs.last().1)
    } else {
        value_of(pairs.drop_last(), name)
    }
}

/// The value that goes by `name`.
fn last_value(pairs: &Vec<(String, String)>, name: &str) -> (r: Option<String>)
    ensures
        match r {
            Some(value) => value_of(web::pairs_view(pairs@), name@) == Some(value@),
            None => value_of(web::pairs_view(pairs@), name@) is None,
        },
{
    let ghost all = web::pairs_view(pairs@);
    let mut n: usize = pairs.len();
    assert(all.take(n as int) =~= all);
    while n > 0
        invariant
            n <= pairs.len(),
            all == web::pairs_view(pairs@),
            value_of(all, name@) == value_of(all.take(n as int), name@),
        decreases n,
    {
        assert(all.take(n as int).last() == all[n - 1]);
        assert(all.take(n as int).drop_last() =~= all.take(n - 1));
        assert(all[n - 1] == (pairs@[n - 1].0@, pairs@[n - 1].1@));
        if text::same(pairs[n - 1].0.as_str(), name) {
            return Some(pairs[n - 1].1.clone());
        }
        n -= 1;
    }
    None
}

/// What a callback with these values gives: a code only where it names the state that
/// was sent, and no error.
pub open spec fn callback_outcome(
    pairs: Seq<(Seq<char>, Seq<char>)>,
    expected_state: Seq<char>,
) -> Result<Seq<char>, Seq<char>> {
    match value_of(pairs, "state"@) {
        None => Err("Google callback did not contain the security state"@),
        Some(state) => if state != expected_state {
            Err("Google callback security state did not match"@)
        } else {
            match value_of(pairs, "error"@) {
                Some(error) => Err("Google sign-in was not completed: "@ + error),
                None => match value_of(pairs, "code"@) {
                    None => Err("Google callback did not contain an authorization code"@),
                    Some(code) => Ok(code),
                },
            }
        },
    }
}

/// What a callback with these values gives.
pub fn callback_code(pairs: &Vec<(String, String)>, expected_state: &str) -> (r: Result<
    String,
    String,
>)
    ensures
        match r {
            Ok(code) => callback_outcome(web::pairs_view(pairs@), expected_state@) == Ok::<
                _,
                Seq<char>,
            >(code@),
            Err(message) => callback_outcome(web::pairs_view(pairs@), expected_state@) == Err::<
                Seq<char>,
                _,
            >(message@),
        },
{
    match last_value(pairs, "state") {
        None => Err("Google callback did not contain the security state".to_owned()),
        Some(state) => {
            if !text::same(state.as_str(), expected_state) {
                return Err("Google callback security state did not match".to_owned());
            }
            if let Some(error) = last_value(pairs, "error") {
                let mut message = "Google sign-in was not completed: ".to_owned();
                message.append(error.as_str());
                return Err(message);
            }
            match last_value(pairs, "code") {
                None => Err("Google callback did not contain an authorization code".to_owned()),
                Some(code) => Ok(code),
            }
        },
    }
}

/// A callback yields a code only if it came with the state that was sent, with no error,
/// and then it is the code that came with it.
pub proof fn codes_come_with_the_right_state(
    pairs: Seq<(Seq<char>, Seq<char>)>,
    expected_state: Seq<char>,
    code: Seq<char>,
)
    ensures
        callback_outcome(pairs, expected_state) == Ok::<Seq<char>, Seq<char>>(code) <==> (value_of(
            pairs,
            "state"@,
        ) == Some(expected_state) && value_of(pairs, "error"@) is None && value_of(pairs, "code"@)
            == Some(code)),
{
}

/// The code that a browser's request brings back to the program.
pub fn finish_youtube_oauth(request: &[u8], expected_state: &str) -> (r: Result<String, String>)
    ensures
        match target_of(bytes::utf8_lossy(request@)) {
            None => r matches Err(message) && message@ == "Google returned an invalid callback"@,
            Some(target) => match web::query_of("http://127.0.0.1"@ + target) {
                Err(fault) => r matches Err(message) && message@
                    == "Google returned an invalid callback URL: "@ + fault,
                Ok(pairs) => match callback_outcome(pairs, expected_state@) {
                    Ok(code) => r matches Ok(found) && found@ == code,
                    Err(fault) => r matches Err(message) && message@ == fault,
                },
            },
        },
{
    let shown = bytes::lossy_text(request);
    match request_target(shown.as_str()) {
        Err(message) => Err(message),
        Ok(target) => {
            let mut address = "http://127.0.0.1".to_owned();
            address.append(target.as_str());
            match web::read_query(address.as_str()) {
                Err(fault) => {
                    let mut message = "Google returned an invalid callback URL: ".to_owned();
                    message.append(fault.as_str());
                    Err(message)
                },
                Ok(pairs) => callback_code(&pairs, expected_state),
            }
        },
    }
}

/// The client's secret: the one that was supplied, else the stored one, else none.
pub fn client_secret(supplied: String, stored: Option<String>) -> (r: String)
    ensures
        r@ == if supplied@.len() > 0 {
            supplied@
        } else {
            match stored {
                Some(secret) => secret@,
                None => Seq::empty(),
            }
        },
{
    if !supplied.as_str().is_empty() {
        supplied
    } else {
        match stored {
            Some(secret) => secret,
            None => String::new(),
        }
    }
}

/// The secret as the last value of a form, where there is one.
pub open spec fn secret_part(secret: Seq<char>) -> Seq<(Seq<char>, Seq<char>)> {
    if secret.len() > 0 {
        seq![("client_secret"@, secret)]
    } else {
        Seq::empty()
    }
}

/// What the code is exchanged with.
pub fn exchange_form(
    client_id: &str,
    code: &str,
    verifier: &str,
    redirect_uri: &str,
    secret: &str,
) -> (r: Vec<(String, String)>)
    ensures
        web::pairs_view(r@) == seq![
            ("client_id"@, client_id@),
            ("code"@, code@),
            ("code_verifier"@, verifier@),
            ("redirect_uri"@, redirect_uri@),
            ("grant_type"@, "authorization_code"@),
        ] + secret_part(secret@),
{
    let mut form: Vec<(String, String)> = Vec::new();
    assert(web::pairs_view(form@) =~= Seq::empty());
    push_pair(&mut form, "client_id", client_id);
    push_pair(&mut form, "code", code);
    push_pair(&mut form, "code_verifier", verifier);
    push_pair(&mut form, "redirect_uri", redirect_uri);
    push_pair(&mut form, "grant_type", "authorization_code");
    if !secret.is_empty() {
        push_pair(&mut form, "client_secret", secret);
    }
    form
}

/// What the refresh token is exchanged with.
pub fn refresh_form(client_id: &str, refresh_token: &str, secret: &str) -> (r: Vec<(String, String)>)
    ensures
        web::pairs_view(r@) == seq![
            ("client_id"@, client_id@),
            ("refresh_token"@, refresh_token@),
            ("grant_type"@, "refresh_token"@),
        ] + secret_part(secret@),
{
    let mut form: Vec<(String, String)> = Vec::new();
    assert(web::pairs_view(form@) =~= Seq::empty());
    push_pair(&mut form, "client_id", client_id);
    push_pair(&mut form, "refresh_token", refresh_token);
    push_pair(&mut form, "grant_type", "refresh_token");
    if !secret.is_empty() {
        push_pair(&mut form, "client_secret", secret);
    }
    form
}

/// What a server answered.
#[derive(Debug)]
pub enum HttpReply {
    NotSent(String),
    Unread(String),
    Answered { success: bool, status: String, body: String },
}

/// What an answer gives, when each kind of failure is told by a text of its own.
pub open spec fn reply_outcome(
    reply: HttpReply,
    not_sent: Seq<char>,
    unread: Seq<char>,
    refused: Seq<char>,
) -> Result<Seq<char>, Seq<char>> {
    match reply {
        HttpReply::NotSent(error) => Err(not_sent + error@),
        HttpReply::Unread(error) => Err(unread + error@),
        HttpReply::Answered { success: true, body, .. } => Ok(body@),
        HttpReply::Answered { success: false, status, body } => Err(
            refused + " ("@ + status@ + "): "@ + body@,
        ),
    }
}

/// What an answer gives: its body, or a message.
pub fn reply_body(reply: HttpReply, not_sent: &str, unread: &str, refused: &str) -> (r: Result<
    String,
    String,
>)
    ensures
        match r {
            Ok(body) => reply_outcome(reply, not_sent@, unread@, refused@) == Ok::<_, Seq<char>>(
                body@,
            ),
            Err(message) => reply_outcome(reply, not_sent@, unread@, refused@) == Err::<
                Seq<char>,
                _,
            >(message@),
        },
{
    match reply {
        HttpReply::NotSent(error) => {
            let mut message = not_sent.to_owned();
            message.append(error.as_str());
            Err(message)
        },
        HttpReply::Unread(error) => {
            let mut message = unread.to_owned();
            message.append(error.as_str());
            Err(message)
        },
        HttpReply::Answered { success, status, body } => {
            if success {
                Ok(body)
            } else {
                let mut message = refused.to_owned();
                message.append(" (");
                message.append(status.as_str());
                message.append("): ");
                message.append(body.as_str());
                Err(message)
            }
        },
    }
}

/// The body of Google's answer to the exchange of a code.
pub fn exchange_reply(reply: HttpReply) -> (r: Result<String, String>)
    ensures
        match r {
            Ok(body) => reply_outcome(
                reply,
                "Could not exchange the Google authorization code: "@,
                "Could not read Google's token response: "@,
                "Google token exchange failed"@,
            ) == Ok::<_, Seq<char>>(body@),
            Err(message) => reply_outcome(
                reply,
                "Could not exchange the Google authorization code: "@,
                "Could not read Google's token response: "@,
                "Google token exchange failed"@,
            ) == Err::<Seq<char>, _>(message@),
        },
{
    reply_body(
        reply,
        "Could not exchange the Google authorization code: ",
        "Could not read Google's token response: ",
        "Google token exchange failed",
    )
}

/// The body of Google's answer to the exchange of a refresh token.
pub fn refresh_reply(reply: HttpReply) -> (r: Result<String, String>)
    ensures
        match r {
            Ok(body) => reply_outcome(
                reply,
                "Could not refresh YouTube authorization: "@,
                "Could not read Google's token response: "@,
                "YouTube authorization failed"@,
            ) == Ok::<_, Seq<char>>(body@),
            Err(message) => reply_outcome(
                reply,
                "Could not refresh YouTube authorization: "@,
                "Could not read Google's token response: "@,
                "YouTube authorization failed"@,
            ) == Err::<Seq<char>, _>(message@),
        },
{
    reply_body(
        reply,
        "Could not refresh YouTube authorization: ",
        "Could not read Google's token response: ",
        "YouTube authorization failed",
    )
}

/// The tokens in Google's answer.
#[derive(Debug)]
pub struct GoogleToken {
    pub access_token: String,
    pub refresh_token: Option<String>,
}

/// The refresh token to store after a sign-in: the new one, else the one that was stored
/// before.
pub fn refresh_token_to_store(parsed: Result<GoogleToken, String>, stored: Option<String>) -> (r:
    Result<String, String>)
    ensures
        match parsed {
            Err(error) => r matches Err(message) && message@ == "Invalid Google token: "@ + error@,
            Ok(token) => match token.refresh_token {
                Some(fresh) if fresh@.len() > 0 => r matches Ok(kept) && kept@ == fresh@,
                _ => match stored {
                    Some(kept) => r == Ok::<String, String>(kept),
                    None => r matches Err(message) && message@
                        == "Google did not return a refresh token; disconnect and try again"@,
                },
            },
        },
{
    match parsed {
        Err(error) => {
            let mut message = "Invalid Google token: ".to_owned();
            message.append(error.as_str());
            Err(message)
        },
        Ok(token) => {
            if let Some(fresh) = token.refresh_token {
                if !fresh.as_str().is_empty() {
                    return Ok(fresh);
                }
            }
            match stored {
                Some(kept) => Ok(kept),
                None => Err(
                    "Google did not return a refresh token; disconnect and try again".to_owned(),
                ),
            }
        },
    }
}

/// What is needed to get an access token: a configured client, and the refresh token of
/// a connected account.
pub fn refresh_token_to_use(client_id: &str, stored: Result<Option<String>, String>) -> (r: Result<
    String,
    String,
>)
    ensures
        if text::trim(client_id@).len() == 0 {
            r matches Err(message) && message@
                == "YouTube is not configured: add a Google OAuth desktop client ID"@
        } else {
            match stored {
                Err(error) => r == Err::<String, String>(error),
                Ok(None) => r matches Err(message) && message@ == "YouTube is not connected"@,
                Ok(Some(token)) => r == Ok::<String, String>(token),
            }
        },
{
    let trimmed = text::trimmed(client_id);
    if trimmed.as_str().is_empty() {
        return Err("YouTube is not configured: add a Google OAuth desktop client ID".to_owned());
    }
    match stored {
        Err(error) => Err(error),
        Ok(None) => Err("YouTube is not connected".to_owned()),
        Ok(Some(token)) => Ok(token),
    }
}

/// The access token in Google's answer.
pub fn access_token(parsed: Result<GoogleToken, String>) -> (r: Result<String, String>)
    ensures
        match parsed {
            Ok(token) => r == Ok::<String, String>(token.access_token),
            Err(error) => r matches Err(message) && message@
                == "Google returned an invalid access token: "@ + error@,
        },
{
    match parsed {
        Ok(token) => Ok(token.access_token),
        Err(error) => {
            let mut message = "Google returned an invalid access token: ".to_owned();
            message.append(error.as_str());
            Err(message)
        },
    }
}

/// Whether an account is connected: a refresh token that is not empty is stored.
pub fn youtube_connected(stored: &Result<Option<String>, String>) -> (r: bool)
    ensures
        r == (*stored matches Ok(Some(token)) && token@.len() > 0),
{
    match stored {
        Ok(Some(token)) => !token.as_str().is_empty(),
        _ => false,
    }
}

/// What the browser is shown once the account is connected.
pub fn connected_page() -> (r: String)
    ensures
        r@ == "HTTP/1.1 200 OK\r\nContent-Type: text/html; charset=utf-8\r\nConnection: close\r\n\r\n"@
            + "<!doctype html><title>Xyra connected</title><body style='background:#0a0c11;color:#f1f3f8;font-family:sans-serif;padding:48px'>"@
            + "<h1>YouTube connected to Xyra</h1><p>You can close this tab and return to Xyra.</p></body>"@,
{
    let mut page =
        "HTTP/1.1 200 OK\r\nContent-Type: text/html; charset=utf-8\r\nConnection: close\r\n\r\n".to_owned();
    page.append(
        "<!doctype html><title>Xyra connected</title><body style='background:#0a0c11;color:#f1f3f8;font-family:sans-serif;padding:48px'>",
    );
    page.append(
        "<h1>YouTube connected to Xyra</h1><p>You can close this tab and return to Xyra.</p></body>",
    );
    page
}

} // verus!
