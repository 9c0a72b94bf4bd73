//! Signing in: what Google is asked, what comes back, and what is kept of it.

use vstd::prelude::*;

use crate::laws::documents;
use crate::laws::publishing;
use crate::laws::reading;
use crate::oauth;
use crate::oauth::{GoogleToken, HttpReply, OAuthRequest};
use crate::services::bytes;
use crate::services::digest;
use crate::services::ids;
use crate::services::web;
use crate::text;

verus! {

/// Only a client with an identifier can sign in; blanks are none.
pub proof fn clients_need_an_identifier(id: &str, trimmed: String, r: Result<(), String>)
    requires
        call_ensures(oauth::check_client_id, (id,), r),
        call_ensures(text::trimmed, (id,), trimmed),
    ensures
        r is Ok <==> trimmed@.len() > 0,
        r matches Err(told) ==> told@ == "Enter a Google OAuth desktop client ID first"@,
{
}

/// The pairs that the sign-in page is given.
pub open spec fn asks_to_sign_in(
    pairs: Seq<(Seq<char>, Seq<char>)>,
    client: Seq<char>,
    request: OAuthRequest,
) -> bool {
    &&& pairs.len() == 9
    &&& pairs.contains(("client_id"@, client))
    &&& pairs.contains(("redirect_uri"@, request.redirect_uri@))
    &&& pairs.contains(("response_type"@, "code"@))
    &&& pairs.contains(("scope"@, "https://www.googleapis.com/auth/youtube.upload"@))
    &&& pairs.contains(("access_type"@, "offline"@))
    &&& pairs.contains(("prompt"@, "consent"@))
    &&& pairs.contains(("state"@, request.state@))
    &&& pairs.contains(("code_challenge_method"@, "S256"@))
    &&& pairs.contains(
        (
            "code_challenge"@,
            digest::base64_url(digest::sha256(vstd::utf8::encode_utf8(request.verifier@))),
        ),
    )
}

/// The page that is opened asks for a code for the client, to be sent back to the program's
/// own port, under the state and the challenge that are remembered; the state and the
/// verifier read as the identifiers they were made of.
pub proof fn sign_ins_ask_for_what_is_remembered(
    client: String,
    secret: String,
    port: u16,
    state: u128,
    first: u128,
    second: u128,
    entered: &str,
    trimmed: String,
    request: OAuthRequest,
)
    requires
        call_ensures(
            OAuthRequest::prepare,
            (client, secret, port, state, first, second),
            Ok::<OAuthRequest, String>(request),
        ),
        entered@ == client@,
        call_ensures(text::trimmed, (entered,), trimmed),
    ensures
        request.client_id@ == client@,
        request.client_secret@ == secret@,
        exists|p: Seq<char>|
            #![trigger reading::writes(p, port as int)]
            reading::writes(p, port as int) && request.redirect_uri@ == "http://127.0.0.1:"@ + p
                + "/oauth/callback"@,
        request.state@.len() == 32 && documents::hex_number(request.state@) == state,
        request.verifier@.len() == 64,
        documents::hex_number(request.verifier@.take(32)) == first,
        documents::hex_number(request.verifier@.skip(32)) == second,
        exists|pairs: Seq<(Seq<char>, Seq<char>)>| #[trigger]
            asks_to_sign_in(pairs, trimmed@, request) && web::address_with_query(
                "https://accounts.google.com/o/oauth2/v2/auth"@,
                pairs,
            ) == Ok::<_, Seq<char>>(request.auth_url@),
{
    lemma_signs_in(request, client@, secret@, port, state, first, second, trimmed@);
}

/// What a sign-in asks for and remembers.
proof fn lemma_signs_in(
    request: OAuthRequest,
    client: Seq<char>,
    secret: Seq<char>,
    port: u16,
    state: u128,
    first: u128,
    second: u128,
    trimmed: Seq<char>,
)
    requires
        request.signs_in(
            client,
            secret,
            port as nat,
            state as nat,
            first as nat,
            second as nat,
        ),
        trimmed == text::trim(client),
    ensures
        exists|p: Seq<char>|
            #![trigger reading::writes(p, port as int)]
            reading::writes(p, port as int) && request.redirect_uri@ == "http://127.0.0.1:"@ + p
                + "/oauth/callback"@,
        request.state@.len() == 32 && documents::hex_number(request.state@) == state,
        request.verifier@.len() == 64,
        documents::hex_number(request.verifier@.take(32)) == first,
        documents::hex_number(request.verifier@.skip(32)) == second,
        exists|pairs: Seq<(Seq<char>, Seq<char>)>| #[trigger]
            asks_to_sign_in(pairs, trimmed, request) && web::address_with_query(
                "https://accounts.google.com/o/oauth2/v2/auth"@,
                pairs,
            ) == Ok::<_, Seq<char>>(request.auth_url@),
{
    reading::lemma_decimal_writes(port as nat);
    publishing::lemma_sixteen_powers();
    documents::hexadecimal_reads_back(state as nat, 32);
    documents::hexadecimal_reads_back(first as nat, 32);
    documents::hexadecimal_reads_back(second as nat, 32);
    assert(request.verifier@.take(32) =~= ids::hex(first as nat, 32));
    assert(request.verifier@.skip(32) =~= ids::hex(second as nat, 32));
    let pairs = oauth::sign_in_query(
        request.client_id@,
        request.redirect_uri@,
        request.state@,
        request.verifier@,
    );
    assert(pairs[0] == ("client_id"@, trimmed));
    assert(pairs[1] == ("redirect_uri"@, request.redirect_uri@));
    assert(pairs[2] == ("response_type"@, "code"@));
    assert(pairs[3] == ("scope"@, "https://www.googleapis.com/auth/youtube.upload"@));
    assert(pairs[4] == ("access_type"@, "offline"@));
    assert(pairs[5] == ("prompt"@, "consent"@));
    assert(pairs[6] == ("state"@, request.state@));
    assert(pairs[7] == (
        "code_challenge"@,
        digest::base64_url(digest::sha256(vstd::utf8::encode_utf8(request.verifier@))),
    ));
    assert(pairs[8] == ("code_challenge_method"@, "S256"@));
    assert(asks_to_sign_in(pairs, trimmed, request));
}

/// The second of two words is found, whatever follows it behind a blank.
pub proof fn second_words_are_found(
    s: &str,
    a: Seq<char>,
    b: Seq<char>,
    rest: Seq<char>,
    r: Option<String>,
)
    requires
        call_ensures(text::word_two, (s,), r),
        a.len() > 0,
        b.len() > 0,
        forall|i: int| 0 <= i < a.len() ==> !text::white_space(#[trigger] a[i]),
        forall|i: int| 0 <= i < b.len() ==> !text::white_space(#[trigger] b[i]),
    ensures
        s@ == a.push(' ') + b.push(' ') + rest ==> (r matches Some(found) && found@ == b),
        s@ == a.push(' ') + b ==> (r matches Some(found) && found@ == b),
        s@ == a ==> r is None,
{
    let none = Seq::<char>::empty();
    if s@ == a.push(' ') + b.push(' ') + rest {
        lemma_word(a, b.push(' ') + rest);
        lemma_word(b, rest);
        assert(s@ =~= a.push(' ') + (b.push(' ') + rest));
        assert(s@.skip(a.len() as int) =~= seq![' '] + (b.push(' ') + rest));
        assert((seq![' '] + (b.push(' ') + rest)).drop_first() =~= b.push(' ') + rest);
        assert((b.push(' ') + rest).take(b.len() as int) =~= b);
        reveal_with_fuel(text::trim_start, 2);
        assert(s@[0] == a[0]);
        assert((b.push(' ') + rest)[0] == b[0]);
    }
    if s@ == a.push(' ') + b {
        lemma_word(a, b);
        lemma_last_word(b);
        assert(s@.skip(a.len() as int) =~= seq![' '] + b);
        assert((seq![' '] + b).drop_first() =~= b);
        assert(b.take(b.len() as int) =~= b);
        reveal_with_fuel(text::trim_start, 2);
        assert(s@[0] == a[0]);
    }
    if s@ == a {
        lemma_last_word(a);
        assert(s@.skip(a.len() as int) =~= none);
        assert(text::trim_start(none) == none);
        assert(text::word_len(none) == 0);
        assert(text::trim_start(s@) == s@);
    }
}

/// A word ends at a blank.
proof fn lemma_word(word: Seq<char>, rest: Seq<char>)
    requires
        forall|i: int| 0 <= i < word.len() ==> !text::white_space(#[trigger] word[i]),
    ensures
        text::word_len(word.push(' ') + rest) == word.len(),
    decreases word.len(),
{
    let s = word.push(' ') + rest;
    if word.len() > 0 {
        let tail = word.drop_first();
        assert forall|i: int| 0 <= i < tail.len() implies !text::white_space(#[trigger] tail[i]) by {
            assert(tail[i] == word[i + 1]);
        }
        lemma_word(tail, rest);
        assert(s[0] == word[0]);
        assert(s.drop_first() =~= tail.push(' ') + rest);
    } else {
        assert(s[0] == ' ');
    }
}

/// A word ends with the text.
proof fn lemma_last_word(word: Seq<char>)
    requires
        forall|i: int| 0 <= i < word.len() ==> !text::white_space(#[trigger] word[i]),
    ensures
        text::word_len(word) == word.len(),
    decreases word.len(),
{
    if word.len() > 0 {
        let tail = word.drop_first();
        assert forall|i: int| 0 <= i < tail.len() implies !text::white_space(#[trigger] tail[i]) by {
            assert(tail[i] == word[i + 1]);
        }
        lemma_last_word(tail);
    }
}

/// The browser asks for the second word of the first line; a request without one is
/// refused.
pub proof fn browsers_ask_in_the_first_line(
    request: &str,
    lines: Vec<String>,
    first: &str,
    word: Option<String>,
    r: Result<String, String>,
)
    requires
        call_ensures(oauth::request_target, (request,), r),
        call_ensures(text::lines_of, (request,), lines),
        lines@.len() > 0 ==> first@ == lines@[0]@,
        call_ensures(text::word_two, (first,), word),
    ensures
        r is Ok <==> lines@.len() > 0 && word is Some,
        r matches Ok(target) ==> target@ == word.unwrap()@,
{
    assert(lines.deep_view().len() == lines@.len());
    if lines@.len() > 0 {
        assert(lines.deep_view()[0] == lines@[0]@);
    }
}

/// `value` is what goes by `name` last.
pub open spec fn is_told(pairs: Seq<(Seq<char>, Seq<char>)>, name: Seq<char>, value: Seq<char>) -> bool {
    exists|i: int|
        #![trigger pairs[i]]
        0 <= i < pairs.len() && pairs[i] == (name, value) && forall|j: int|
            i < j < pairs.len() ==> (#[trigger] pairs[j]).0 != name
}

/// Nothing goes by `name`.
pub open spec fn is_untold(pairs: Seq<(Seq<char>, Seq<char>)>, name: Seq<char>) -> bool {
    forall|i: int| 0 <= i < pairs.len() ==> (#[trigger] pairs[i]).0 != name
}

/// The value that goes by a name is the last one told.
proof fn lemma_value_told(pairs: Seq<(Seq<char>, Seq<char>)>, name: Seq<char>)
    ensures
        match oauth::value_of(pairs, name) {
            Some(value) => is_told(pairs, name, value),
            None => is_untold(pairs, name),
        },
    decreases pairs.len(),
{
    if pairs.len() > 0 {
        let front = pairs.drop_last();
        let last = pairs.len() - 1;
        if pairs.last().0 == name {
            assert(pairs[last] == (name, pairs.last().1));
        } else {
            lemma_value_told(front, name);
            match oauth::value_of(front, name) {
                Some(value) => {
                    let i = choose|i: int|
                        #![trigger front[i]]
                        0 <= i < front.len() && front[i] == (name, value) && forall|j: int|
                            i < j < front.len() ==> (#[trigger] front[j]).0 != name;
                    assert(pairs[i] == (name, value));
                    assert forall|j: int| i < j < pairs.len() implies (#[trigger] pairs[j]).0
                        != name by {
                        if j < last {
                            assert(front[j] == pairs[j]);
                        }
                    }
                },
                None => {
                    assert forall|j: int| 0 <= j < pairs.len() implies (#[trigger] pairs[j]).0
                        != name by {
                        if j < last {
                            assert(front[j] == pairs[j]);
                        }
                    }
                },
            }
        }
    }
}

/// A callback yields a code only under the state that was sent and without an error, and then
/// it is the code that came; whatever else is wrong, no code comes of it, and an error that
/// Google names is told.
pub proof fn callbacks_yield_codes_under_their_state(
    pairs: Vec<(String, String)>,
    expected: &str,
    r: Result<String, String>,
)
    requires
        call_ensures(oauth::callback_code, (&pairs, expected), r),
    ensures
        ({
            let told = web::pairs_view(pairs@);
            &&& r matches Ok(code) ==> is_told(told, "state"@, expected@) && is_untold(
                told,
                "error"@,
            ) && is_told(told, "code"@, code@)
            &&& r is Err ==> is_untold(told, "state"@) || !is_told(told, "state"@, expected@)
                || !is_untold(told, "error"@) || is_untold(told, "code"@)
            &&& is_untold(told, "state"@) ==> r.unwrap_err()@
                == "Google callback did not contain the security state"@
            &&& forall|value: Seq<char>| #[trigger]
                is_told(told, "state"@, value) && value != expected@ ==> r.unwrap_err()@
                    == "Google callback security state did not match"@
            &&& forall|error: Seq<char>|
                is_told(told, "state"@, expected@) && #[trigger] is_told(told, "error"@, error)
                    ==> r.unwrap_err()@ == "Google sign-in was not completed: "@ + error
        }),
{
    let told = web::pairs_view(pairs@);
    lemma_value_told(told, "state"@);
    lemma_value_told(told, "error"@);
    lemma_value_told(told, "code"@);
    assert forall|value: Seq<char>| #[trigger] is_told(told, "state"@, value) implies oauth::value_of(
        told,
        "state"@,
    ) == Some(value) by {
        lemma_told_once(told, "state"@, value);
    }
    assert forall|value: Seq<char>| #[trigger] is_told(told, "error"@, value) implies oauth::value_of(
        told,
        "error"@,
    ) == Some(value) by {
        lemma_told_once(told, "error"@, value);
    }
}

/// One value goes by a name last.
proof fn lemma_told_once(pairs: Seq<(Seq<char>, Seq<char>)>, name: Seq<char>, value: Seq<char>)
    requires
        is_told(pairs, name, value),
    ensures
        oauth::value_of(pairs, name) == Some(value),
{
    lemma_value_told(pairs, name);
    let i = choose|i: int|
        #![trigger pairs[i]]
        0 <= i < pairs.len() && pairs[i] == (name, value) && forall|j: int|
            i < j < pairs.len() ==> (#[trigger] pairs[j]).0 != name;
    match oauth::value_of(pairs, name) {
        Some(other) => {
            let k = choose|k: int|
                #![trigger pairs[k]]
                0 <= k < pairs.len() && pairs[k] == (name, other) && forall|j: int|
                    k < j < pairs.len() ==> (#[trigger] pairs[j]).0 != name;
            assert(pairs[i].0 == name && pairs[k].0 == name);
        },
        None => {
            assert(pairs[i].0 == name);
        },
    }
}

/// What the browser brings back is read from the address it asks for, below the program's
/// own.
pub proof fn callbacks_are_read_from_their_address(
    request: &[u8],
    expected: &str,
    shown: &str,
    target: String,
    pairs: Vec<(String, String)>,
    code: Result<String, String>,
    r: Result<String, String>,
)
    requires
        call_ensures(oauth::finish_youtube_oauth, (request, expected), r),
        shown@ == bytes::utf8_lossy(request@),
        call_ensures(oauth::request_target, (shown,), Ok::<String, String>(target)),
        web::query_of("http://127.0.0.1"@ + target@) == Ok::<_, Seq<char>>(
            web::pairs_view(pairs@),
        ),
        call_ensures(oauth::callback_code, (&pairs, expected), code),
    ensures
        r is Ok <==> code is Ok,
        r matches Ok(found) ==> found@ == code.unwrap()@,
        r matches Err(told) ==> told@ == code.unwrap_err()@,
{
}

/// The secret is the one that was entered, else the one that is stored, else none.
pub proof fn entered_secrets_count_first(supplied: String, stored: Option<String>, r: String)
    requires
        call_ensures(oauth::client_secret, (supplied, stored), r),
    ensures
        supplied@.len() > 0 ==> r@ == supplied@,
        supplied@.len() == 0 && stored is Some ==> r@ == stored.unwrap()@,
        supplied@.len() == 0 && stored is None ==> r@.len() == 0,
{
}

/// A code is exchanged with the client, the code, the verifier and the address it came to;
/// the secret is sent where there is one.
pub proof fn codes_are_exchanged_with_their_verifier(
    client: &str,
    code: &str,
    verifier: &str,
    redirect: &str,
    secret: &str,
    r: Vec<(String, String)>,
)
    requires
        call_ensures(oauth::exchange_form, (client, code, verifier, redirect, secret), r),
    ensures
        ({
            let told = web::pairs_view(r@);
            &&& told.contains(("client_id"@, client@))
            &&& told.contains(("code"@, code@))
            &&& told.contains(("code_verifier"@, verifier@))
            &&& told.contains(("redirect_uri"@, redirect@))
            &&& told.contains(("grant_type"@, "authorization_code"@))
            &&& secret@.len() > 0 ==> told.contains(("client_secret"@, secret@)) && told.len() == 6
            &&& secret@.len() == 0 ==> told.len() == 5
        }),
{
    let told = web::pairs_view(r@);
    assert(told[0] == ("client_id"@, client@));
    assert(told[1] == ("code"@, code@));
    assert(told[2] == ("code_verifier"@, verifier@));
    assert(told[3] == ("redirect_uri"@, redirect@));
    assert(told[4] == ("grant_type"@, "authorization_code"@));
    if secret@.len() > 0 {
        assert(told[5] == ("client_secret"@, secret@));
    }
}

/// A refresh token is exchanged with the client; the secret is sent where there is one.
pub proof fn refresh_tokens_are_exchanged(
    client: &str,
    token: &str,
    secret: &str,
    r: Vec<(String, String)>,
)
    requires
        call_ensures(oauth::refresh_form, (client, token, secret), r),
    ensures
        ({
            let told = web::pairs_view(r@);
            &&& told.contains(("client_id"@, client@))
            &&& told.contains(("refresh_token"@, token@))
            &&& told.contains(("grant_type"@, "refresh_token"@))
            &&& secret@.len() > 0 ==> told.contains(("client_secret"@, secret@)) && told.len() == 4
            &&& secret@.len() == 0 ==> told.len() == 3
        }),
{
    let told = web::pairs_view(r@);
    assert(told[0] == ("client_id"@, client@));
    assert(told[1] == ("refresh_token"@, token@));
    assert(told[2] == ("grant_type"@, "refresh_token"@));
    if secret@.len() > 0 {
        assert(told[3] == ("client_secret"@, secret@));
    }
}

/// An answer counts exactly where it is a success, and is then its body; every failure is
/// told with the reason, behind the words for its kind.
pub proof fn answers_count_when_they_succeed(
    reply: HttpReply,
    not_sent: &str,
    unread: &str,
    refused: &str,
    r: Result<String, String>,
)
    requires
        call_ensures(oauth::reply_body, (reply, not_sent, unread, refused), r),
    ensures
        r is Ok <==> (reply matches HttpReply::Answered { success, .. } && success),
        reply matches HttpReply::Answered { success: true, body, .. } ==> r.unwrap()@ == body@,
        reply matches HttpReply::NotSent(reason) ==> r.unwrap_err()@ == not_sent@ + reason@,
        reply matches HttpReply::Unread(reason) ==> r.unwrap_err()@ == unread@ + reason@,
        reply matches HttpReply::Answered { success: false, status, body } ==> text::starts_with(
            r.unwrap_err()@,
            refused@,
        ) && publishing::ends_with(r.unwrap_err()@, "): "@ + body@) && text::contains(
            r.unwrap_err()@,
            status@,
        ),
{
    if let HttpReply::Answered { success, status, body } = reply {
        if !success {
            let told = r.unwrap_err()@;
            let end = "): "@ + body@;
            assert(told.subrange(0, refused@.len() as int) =~= refused@);
            assert(told.skip(told.len() - end.len()) =~= end);
            let at = refused@.len() as int + " ("@.len();
            assert(told.subrange(at, at + status@.len()) =~= status@);
            assert(text::occurs_at(told, status@, at));
        }
    }
}

/// Google's answers to both exchanges count when they succeed, and fail in words of their
/// own.
pub proof fn exchanges_fail_in_their_own_words(
    a: HttpReply,
    b: HttpReply,
    r: Result<String, String>,
    s: Result<String, String>,
)
    requires
        call_ensures(oauth::exchange_reply, (a,), r),
        call_ensures(oauth::refresh_reply, (b,), s),
    ensures
        r is Ok <==> (a matches HttpReply::Answered { success, .. } && success),
        s is Ok <==> (b matches HttpReply::Answered { success, .. } && success),
        a matches HttpReply::Answered { success: true, body, .. } ==> r.unwrap()@ == body@,
        b matches HttpReply::Answered { success: true, body, .. } ==> s.unwrap()@ == body@,
        a matches HttpReply::NotSent(reason) ==> r.unwrap_err()@
            == "Could not exchange the Google authorization code: "@ + reason@,
        b matches HttpReply::NotSent(reason) ==> s.unwrap_err()@
            == "Could not refresh YouTube authorization: "@ + reason@,
        a matches HttpReply::Unread(reason) ==> publishing::ends_with(
            r.unwrap_err()@,
            reason@,
        ),
        b matches HttpReply::Unread(reason) ==> publishing::ends_with(
            s.unwrap_err()@,
            reason@,
        ),
        a matches HttpReply::Answered { success: false, .. } ==> text::starts_with(
            r.unwrap_err()@,
            "Google token exchange failed ("@,
        ),
        b matches HttpReply::Answered { success: false, .. } ==> text::starts_with(
            s.unwrap_err()@,
            "YouTube authorization failed ("@,
        ),
{
    if let HttpReply::Unread(reason) = a {
        let told = r.unwrap_err()@;
        assert(told.skip(told.len() - reason@.len()) =~= reason@);
    }
    if let HttpReply::Unread(reason) = b {
        let told = s.unwrap_err()@;
        assert(told.skip(told.len() - reason@.len()) =~= reason@);
    }
    reveal_strlit("Google token exchange failed (");
    reveal_strlit("Google token exchange failed");
    reveal_strlit("YouTube authorization failed (");
    reveal_strlit("YouTube authorization failed");
    reveal_strlit(" (");
    if let HttpReply::Answered { success, .. } = a {
        if !success {
            assert(r.unwrap_err()@.subrange(0, 30) =~= "Google token exchange failed ("@);
        }
    }
    if let HttpReply::Answered { success, .. } = b {
        if !success {
            assert(s.unwrap_err()@.subrange(0, 30) =~= "YouTube authorization failed ("@);
        }
    }
}

/// A new refresh token replaces the stored one; without one the stored one is kept, and where
/// there is neither the sign-in has failed.
pub proof fn refresh_tokens_are_kept(
    parsed: Result<GoogleToken, String>,
    stored: Option<String>,
    r: Result<String, String>,
)
    requires
        call_ensures(oauth::refresh_token_to_store, (parsed, stored), r),
    ensures
        parsed is Err ==> r is Err && publishing::ends_with(
            r.unwrap_err()@,
            parsed.unwrap_err()@,
        ),
        (parsed matches Ok(token) && (token.refresh_token matches Some(fresh) && fresh@.len() > 0))
            ==> r is Ok && r.unwrap()@ == parsed.unwrap().refresh_token.unwrap()@,
        (parsed matches Ok(token) && (token.refresh_token is None
            || token.refresh_token.unwrap()@.len() == 0)) ==> (r is Ok <==> stored is Some) && (
        stored is Some ==> r.unwrap()@ == stored.unwrap()@),
{
    if let Err(reason) = parsed {
        let told = r.unwrap_err()@;
        assert(told.skip(told.len() - reason@.len()) =~= reason@);
    }
}

/// Uploading needs a configured client and a connected account, and is told which is missing;
/// the token that is used is the stored one.
pub proof fn uploads_need_a_connected_account(
    client: &str,
    trimmed: String,
    stored: Result<Option<String>, String>,
    r: Result<String, String>,
    connected: bool,
)
    requires
        call_ensures(oauth::refresh_token_to_use, (client, stored), r),
        call_ensures(text::trimmed, (client,), trimmed),
        call_ensures(oauth::youtube_connected, (&stored,), connected),
    ensures
        r is Ok <==> trimmed@.len() > 0 && (stored matches Ok(found) && found is Some),
        r matches Ok(token) ==> token@ == stored.unwrap().unwrap()@,
        trimmed@.len() > 0 ==> (stored matches Err(reason) ==> r.unwrap_err()@ == reason@),
        trimmed@.len() > 0 && stored == Ok::<Option<String>, String>(None) ==> r.unwrap_err()@
            == "YouTube is not connected"@,
        connected <==> (stored matches Ok(found) && found is Some && found.unwrap()@.len() > 0),
{
}

/// The access token is the one that Google gave.
pub proof fn access_tokens_come_from_google(parsed: Result<GoogleToken, String>, r: Result<String, String>)
    requires
        call_ensures(oauth::access_token, (parsed,), r),
    ensures
        r is Ok <==> parsed is Ok,
        parsed matches Ok(token) ==> r.unwrap()@ == token.access_token@,
        parsed matches Err(reason) ==> publishing::ends_with(r.unwrap_err()@, reason@),
{
    if let Err(reason) = parsed {
        let told = r.unwrap_err()@;
        assert(told.skip(told.len() - reason@.len()) =~= reason@);
    }
}

/// The browser is told that all went well, and shown a page.
pub proof fn browsers_are_told_of_success(r: String)
    requires
        call_ensures(oauth::connected_page, (), r),
    ensures
        text::starts_with(r@, "HTTP/1.1 200 OK\r\n"@),
        text::contains(r@, "YouTube connected to Xyra"@),
{
    reveal_strlit("HTTP/1.1 200 OK\r\n");
    reveal_strlit(
        "HTTP/1.1 200 OK\r\nContent-Type: text/html; charset=utf-8\r\nConnection: close\r\n\r\n",
    );
    reveal_strlit("YouTube connected to Xyra");
    reveal_strlit(
        "<h1>YouTube connected to Xyra</h1><p>You can close this tab and return to Xyra.</p></body>",
    );
    let a =
        "HTTP/1.1 200 OK\r\nContent-Type: text/html; charset=utf-8\r\nConnection: close\r\n\r\n"@;
    let b =
        "<!doctype html><title>Xyra connected</title><body style='background:#0a0c11;color:#f1f3f8;font-family:sans-serif;padding:48px'>"@;
    assert(r@.subrange(0, 17) =~= "HTTP/1.1 200 OK\r\n"@);
    let at = a.len() as int + b.len() + 4;
    let words = "YouTube connected to Xyra"@;
    assert(r@.subrange(at, at + words.len()) =~= words);
    assert(text::occurs_at(r@, words, at));
}

/// A sign-in starts with a client only; it remembers the client and the secret, waits at its
/// own port, and has a fresh state and verifier of hexadecimal digits.
pub proof fn sign_ins_start_afresh(
    client: String,
    secret: String,
    port: u16,
    entered: &str,
    trimmed: String,
    r: Result<OAuthRequest, String>,
)
    requires
        call_ensures(oauth::start_youtube_oauth, (client, secret, port), r),
        entered@ == client@,
        call_ensures(text::trimmed, (entered,), trimmed),
    ensures
        trimmed@.len() == 0 ==> (r matches Err(told) && told@
            == "Enter a Google OAuth desktop client ID first"@),
        r matches Ok(request) ==> {
            &&& trimmed@.len() > 0
            &&& request.client_id@ == client@ && request.client_secret@ == secret@
            &&& request.state@.len() == 32 && request.verifier@.len() == 64
            &&& exists|p: Seq<char>|
                #![trigger reading::writes(p, port as int)]
                reading::writes(p, port as int) && request.redirect_uri@ == "http://127.0.0.1:"@ + p
                    + "/oauth/callback"@
            &&& exists|pairs: Seq<(Seq<char>, Seq<char>)>| #[trigger]
                asks_to_sign_in(pairs, trimmed@, request) && web::address_with_query(
                    "https://accounts.google.com/o/oauth2/v2/auth"@,
                    pairs,
                ) == Ok::<_, Seq<char>>(request.auth_url@)
            &&& exists|first: u128, second: u128|
                #![trigger ids::is_drawn(first), ids::is_drawn(second)]
                ids::is_drawn(first) && ids::is_drawn(second) && documents::hex_number(
                    request.verifier@.take(32),
                ) == first && documents::hex_number(request.verifier@.skip(32)) == second
        },
{
    if trimmed@.len() > 0 {
        let (state, first, second) = choose|state_id: u128, first_id: u128, second_id: u128|
            #![trigger ids::is_drawn(state_id), ids::is_drawn(first_id), ids::is_drawn(second_id)]
            ids::is_drawn(state_id) && ids::is_drawn(first_id) && ids::is_drawn(second_id)
                && match r {
                Ok(request) => request.signs_in(
                    client@,
                    secret@,
                    port as nat,
                    state_id as nat,
                    first_id as nat,
                    second_id as nat,
                ),
                Err(message) => web::address_with_query(
                    oauth::AUTH_ADDRESS@,
                    oauth::sign_in_query(
                        client@,
                        oauth::callback_address(port as nat),
                        ids::hex(state_id as nat, 32),
                        ids::hex(first_id as nat, 32) + ids::hex(second_id as nat, 32),
                    ),
                ) == Err::<Seq<char>, _>(message@),
            };
        if let Ok(request) = r {
            lemma_signs_in(
                request,
                client@,
                secret@,
                port,
                state,
                first,
                second,
                trimmed@,
            );
            assert(ids::is_drawn(first) && ids::is_drawn(second));
        }
    }
}

/// Tokens are exchanged at Google's address for them.
pub proof fn tokens_are_exchanged_with_google()
    ensures
        oauth::TOKEN_ADDRESS@ == "https://oauth2.googleapis.com/token"@,
{
}

} // verus!
