//! Account secrets, and what the system's credential store answers.

use vstd::prelude::*;
use vstd::string::*;

use crate::services::bytes;

verus! {

/// The names under which secrets are stored.
pub const YOUTUBE_REFRESH_TOKEN: &'static str = "Xyra/YouTubeRefreshToken";

pub const YOUTUBE_CLIENT_SECRET: &'static str = "Xyra/YouTubeClientSecret";

/// What the system answers where a secret is not stored.
pub const ERROR_NOT_FOUND: i32 = 1168;

/// What the credential store answered to a read.
#[derive(Debug)]
pub enum SecretAnswer {
    Failed { code: Option<i32>, message: String },
    Nothing,
    Found(Vec<u8>),
}

/// What the credential store answered when a secret was to be deleted.
#[derive(Debug)]
pub enum DeleteAnswer {
    Failed { code: Option<i32>, message: String },
    Deleted,
}

/// `read` is what a program gets for `answer`: none where none is stored; a secret that is
/// no text is an error.
pub open spec fn is_read(answer: SecretAnswer, read: Result<Option<String>, String>) -> bool {
    match answer {
        SecretAnswer::Failed { code, message } => if code == Some(ERROR_NOT_FOUND) {
            read == Ok::<Option<String>, String>(None)
        } else {
            read == Err::<Option<String>, String>(message)
        },
        SecretAnswer::Nothing => read == Ok::<Option<String>, String>(None),
        SecretAnswer::Found(stored) => match read {
            Ok(found) => found matches Some(secret) && vstd::utf8::encode_utf8(secret@) == stored@,
            Err(message) => !vstd::utf8::valid_utf8(stored@) && message@ == bytes::utf8_fault(
                stored@,
            ),
        },
    }
}

/// What becomes of `answer`: a secret that was not stored is as good as deleted.
pub open spec fn deletion(answer: DeleteAnswer) -> Result<(), String> {
    match answer {
        DeleteAnswer::Deleted => Ok(()),
        DeleteAnswer::Failed { code, message } => if code == Some(ERROR_NOT_FOUND) {
            Ok(())
        } else {
            Err(message)
        },
    }
}

/// The secret that was read.
pub fn read_secret(answer: SecretAnswer) -> (r: Result<Option<String>, String>)
    ensures
        is_read(answer, r),
{
    match answer {
        SecretAnswer::Failed { code, message } => {
            if code == Some(ERROR_NOT_FOUND) {
                Ok(None)
            } else {
                Err(message)
            }
        },
        SecretAnswer::Nothing => Ok(None),
        SecretAnswer::Found(stored) => match bytes::strict_text(stored) {
            Ok(secret) => Ok(Some(secret)),
            Err(message) => Err(message),
        },
    }
}

/// Whether a secret is gone.
pub fn delete_secret(answer: DeleteAnswer) -> (r: Result<(), String>)
    ensures
        r == deletion(answer),
{
    match answer {
        DeleteAnswer::Deleted => Ok(()),
        DeleteAnswer::Failed { code, message } => {
            if code == Some(ERROR_NOT_FOUND) {
                Ok(())
            } else {
                Err(message)
            }
        },
    }
}

/// `answer` is what a store that holds `secrets` gives for the one under `target`.
pub open spec fn answers_read(
    secrets: Map<Seq<char>, Seq<u8>>,
    target: Seq<char>,
    answer: SecretAnswer,
) -> bool {
    match answer {
        SecretAnswer::Found(stored) => secrets.contains_key(target) && stored@ == secrets[target],
        SecretAnswer::Nothing => !secrets.contains_key(target),
        SecretAnswer::Failed { code, .. } => !secrets.contains_key(target) <==> code == Some(
            ERROR_NOT_FOUND,
        ),
    }
}

/// `answer` is what a store that holds `before` gives when the secret under `target` is to
/// be deleted, and `after` is what it holds then.
pub open spec fn answers_delete(
    before: Map<Seq<char>, Seq<u8>>,
    target: Seq<char>,
    answer: DeleteAnswer,
    after: Map<Seq<char>, Seq<u8>>,
) -> bool {
    match answer {
        DeleteAnswer::Deleted => before.contains_key(target) && after == before.remove(target),
        DeleteAnswer::Failed { code, .. } => after == before && (!before.contains_key(target)
            <==> code == Some(ERROR_NOT_FOUND)),
    }
}

/// In a store that answers as described, a deletion that succeeds leaves nothing to read
/// under its name, one of a secret that is not stored succeeds, and so does a second one
/// behind a success. Secrets under other names stay as they are.
pub proof fn deleted_secrets_are_gone(
    before: Map<Seq<char>, Seq<u8>>,
    target: Seq<char>,
    answer: DeleteAnswer,
    after: Map<Seq<char>, Seq<u8>>,
)
    requires
        answers_delete(before, target, answer, after),
    ensures
        !before.contains_key(target) ==> deletion(answer) is Ok,
        deletion(answer) is Ok ==> forall|reply: SecretAnswer, read: Result<Option<String>, String>|
            answers_read(after, target, reply) && #[trigger] is_read(reply, read) ==> read == Ok::<
                Option<String>,
                String,
            >(None),
        deletion(answer) is Ok ==> forall|
            again: DeleteAnswer,
            last: Map<Seq<char>, Seq<u8>>,
        | #[trigger]
            answers_delete(after, target, again, last) ==> deletion(again) is Ok && last == after,
        forall|other: Seq<char>|
            other != target ==> #[trigger] after.contains_key(other) == before.contains_key(other),
        forall|other: Seq<char>|
            other != target && before.contains_key(other) ==> #[trigger] after[other]
                == before[other],
{
}

/// A secret that was stored as text is read back as it was.
pub proof fn stored_secrets_are_read_back(secret: Seq<char>, read: Seq<char>)
    requires
        vstd::utf8::encode_utf8(read) == vstd::utf8::encode_utf8(secret),
    ensures
        read == secret,
        vstd::utf8::valid_utf8(vstd::utf8::encode_utf8(secret)),
{
    vstd::utf8::encode_utf8_valid_utf8(secret);
    vstd::utf8::encode_utf8_decode_utf8(secret);
    vstd::utf8::encode_utf8_decode_utf8(read);
}

} // verus!
