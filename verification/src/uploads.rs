//! What is sent to YouTube and to the local LBRY SDK, and what their answers mean.

use vstd::prelude::*;
use vstd::string::*;

use crate::config::AppConfig;
use crate::model::{PublishJob, Visibility};
use crate::oauth;
use crate::oauth::HttpReply;
use crate::publish;
use crate::services::json;
use crate::text;

verus! {

/// Where a resumable upload is begun.
pub const YOUTUBE_UPLOAD_ADDRESS: &'static str =
    "https://www.googleapis.com/upload/youtube/v3/videos?uploadType=resumable&part=snippet,status";

/// What YouTube is told of a video: its title and description, the category of games,
/// who may see it, and that it is not made for children.
pub open spec fn youtube_metadata(job: PublishJob, visibility: Visibility) -> Seq<char> {
    "{\"snippet\":{\"categoryId\":\"20\",\"description\":"@ + json::json_quoted(job.description@)
        + ",\"title\":"@ + json::json_quoted(job.title@) + "},\"status\":{\"privacyStatus\":"@
        + json::json_quoted(visibility.youtube_name()) + ",\"selfDeclaredMadeForKids\":false}}"@
}

/// What YouTube is told of a video.
pub fn youtube_body(job: &PublishJob, visibility: Visibility) -> (r: String)
    ensures
        r@ == youtube_metadata(*job, visibility),
{
    let description = json::quote(job.description.as_str());
    let title = json::quote(job.title.as_str());
    let privacy = json::quote(visibility.youtube_value());
    let mut body = "{\"snippet\":{\"categoryId\":\"20\",\"description\":".to_owned();
    body.append(description.as_str());
    body.append(",\"title\":");
    body.append(title.as_str());
    body.append("},\"status\":{\"privacyStatus\":");
    body.append(privacy.as_str());
    body.append(",\"selfDeclaredMadeForKids\":false}}");
    body
}

/// YouTube's answer to the beginning of an upload.
#[derive(Debug)]
pub enum StartReply {
    NotSent(String),
    Answered { success: bool, status: String, body: String, location: Option<String> },
}

/// Where the file is to be sent.
pub fn upload_address(reply: StartReply) -> (r: Result<String, String>)
    ensures
        match reply {
            StartReply::NotSent(error) => r matches Err(message) && message@
                == "Could not start the YouTube upload: "@ + error@,
            StartReply::Answered { success: false, status, body, .. } => r matches Err(message)
                && message@ == "YouTube rejected the upload ("@ + status@ + "): "@ + body@,
            StartReply::Answered { success: true, location: None, .. } => r matches Err(message)
                && message@ == "YouTube did not return a resumable upload URL"@,
            StartReply::Answered { success: true, location: Some(address), .. } => r == Ok::<
                String,
                String,
            >(address),
        },
{
    match reply {
        StartReply::NotSent(error) => {
            let mut message = "Could not start the YouTube upload: ".to_owned();
            message.append(error.as_str());
            Err(message)
        },
        StartReply::Answered { success, status, body, location } => {
            if !success {
                let mut message = "YouTube rejected the upload (".to_owned();
                message.append(status.as_str());
                message.append("): ");
                message.append(body.as_str());
                return Err(message);
            }
            match location {
                Some(address) => Ok(address),
                None => Err("YouTube did not return a resumable upload URL".to_owned()),
            }
        },
    }
}

/// The link to a video, given what is found of its identifier in YouTube's answer.
pub fn video_link(id: Option<Option<String>>) -> (r: Result<String, String>)
    ensures
        match id {
            Some(Some(id)) => r matches Ok(link) && link@ == "https://youtu.be/"@ + id@,
            _ => r matches Err(message) && message@
                == "YouTube uploaded the file but did not return a video ID"@,
        },
{
    match id {
        Some(Some(id)) => {
            let mut link = "https://youtu.be/".to_owned();
            link.append(id.as_str());
            Ok(link)
        },
        _ => Err("YouTube uploaded the file but did not return a video ID".to_owned()),
    }
}

/// YouTube's answer to the file, as a body or a message.
pub open spec fn youtube_outcome(reply: HttpReply) -> Result<Seq<char>, Seq<char>> {
    oauth::reply_outcome(
        reply,
        "YouTube upload failed: "@,
        "Could not read YouTube's upload response: "@,
        "YouTube upload failed"@,
    )
}

/// The link to the video that was uploaded.
pub fn upload_youtube(reply: HttpReply) -> (r: Result<String, String>)
    ensures
        match youtube_outcome(reply) {
            Err(fault) => r matches Err(message) && message@ == fault,
            Ok(body) => match json::json_string(body, "/id"@) {
                Some(Some(id)) => r matches Ok(link) && link@ == "https://youtu.be/"@ + id,
                _ => r matches Err(message) && message@
                    == "YouTube uploaded the file but did not return a video ID"@,
            },
        },
{
    match oauth::reply_body(
        reply,
        "YouTube upload failed: ",
        "Could not read YouTube's upload response: ",
        "YouTube upload failed",
    ) {
        Err(message) => Err(message),
        Ok(body) => video_link(json::read_string(body.as_str(), "/id")),
    }
}

/// The channel that a claim is made in, where one is configured.
pub open spec fn channel_part(config: AppConfig) -> Seq<char> {
    let channel = text::trim(config.odysee_channel_id@);
    if channel.len() > 0 {
        ",\"channel_id\":"@ + json::json_quoted(channel)
    } else {
        Seq::empty()
    }
}

/// What the LBRY SDK is asked to publish.
pub open spec fn odysee_request(job: PublishJob, config: AppConfig, name: Seq<char>) -> Seq<char> {
    "{\"method\":\"publish\",\"params\":{\"bid\":"@ + json::json_quoted(config.odysee_bid@)
        + ",\"blocking\":true"@ + channel_part(config) + ",\"description\":"@ + json::json_quoted(
        job.description@,
    ) + ",\"file_path\":"@ + json::json_quoted(job.clip_path@) + ",\"name\":"@ + json::json_quoted(
        name,
    ) + ",\"optimize_file\":false,\"preview\":false,\"title\":"@ + json::json_quoted(job.title@)
        + ",\"validate_file\":true}}"@
}

/// What the LBRY SDK is asked to publish, under the claim `name`.
pub fn odysee_body(job: &PublishJob, config: &AppConfig, name: &str) -> (r: String)
    ensures
        r@ == odysee_request(*job, *config, name@),
{
    let bid = json::quote(config.odysee_bid.as_str());
    let description = json::quote(job.description.as_str());
    let path = json::quote(job.clip_path.as_str());
    let quoted_name = json::quote(name);
    let title = json::quote(job.title.as_str());
    let channel = text::trimmed(config.odysee_channel_id.as_str());
    let mut channel_text = String::new();
    if !channel.as_str().is_empty() {
        let quoted_channel = json::quote(channel.as_str());
        channel_text.append(",\"channel_id\":");
        channel_text.append(quoted_channel.as_str());
    }
    assert(channel_text@ =~= channel_part(*config));
    let mut body = "{\"method\":\"publish\",\"params\":{\"bid\":".to_owned();
    body.append(bid.as_str());
    body.append(",\"blocking\":true");
    body.append(channel_text.as_str());
    body.append(",\"description\":");
    body.append(description.as_str());
    body.append(",\"file_path\":");
    body.append(path.as_str());
    body.append(",\"name\":");
    body.append(quoted_name.as_str());
    body.append(",\"optimize_file\":false,\"preview\":false,\"title\":");
    body.append(title.as_str());
    body.append(",\"validate_file\":true}}");
    body
}

/// The claim's name, and what the LBRY SDK is asked to publish under it.
pub fn odysee_publication(job: &PublishJob, config: &AppConfig) -> (r: (String, String))
    ensures
        r.0@ == publish::claim_name(publish::lowered_chars(job.title@), job.id as nat),
        r.1@ == odysee_request(*job, *config, r.0@),
{
    let name = publish::odysee_claim_name(job.title.as_str(), job.id);
    let body = odysee_body(job, config, name.as_str());
    (name, body)
}

/// The LBRY SDK's answer, as a body or a message.
pub open spec fn odysee_outcome(reply: HttpReply, address: Seq<char>) -> Result<Seq<char>, Seq<char>> {
    oauth::reply_outcome(
        reply,
        "Could not reach the local LBRY SDK at "@ + address + ": "@,
        "Could not read the LBRY SDK response: "@,
        "LBRY SDK publish failed"@,
    )
}

/// The link to a claim; without an identifier, the name alone leads to it.
pub open spec fn claim_link(name: Seq<char>, claim_id: Seq<char>) -> Seq<char> {
    if claim_id.len() == 0 {
        "lbry://"@ + name
    } else {
        "https://odysee.com/"@ + name + ":"@ + claim_id
    }
}

/// The claim's identifier, given what the two places hold where the SDK may tell it: the
/// second is looked at only where the first is not there.
pub open spec fn claim_id_of(
    output: Option<Option<Seq<char>>>,
    result: Option<Option<Seq<char>>>,
) -> Seq<char> {
    match output {
        Some(Some(id)) => id,
        Some(None) => Seq::empty(),
        None => match result {
            Some(Some(id)) => id,
            _ => Seq::empty(),
        },
    }
}

/// A value that may be missing, or be no text.
pub open spec fn found_view(found: Option<Option<String>>) -> Option<Option<Seq<char>>> {
    match found {
        Some(Some(id)) => Some(Some(id@)),
        Some(None) => Some(None),
        None => None,
    }
}

/// The link to a claim, given what is found in the SDK's answer.
pub fn publication_link(
    name: &str,
    fault: Result<Option<String>, String>,
    output: Option<Option<String>>,
    result: Option<Option<String>>,
) -> (r: Result<String, String>)
    ensures
        match fault {
            Err(error) => r matches Err(message) && message@ == "LBRY SDK returned invalid JSON: "@
                + error@,
            Ok(Some(error)) => r matches Err(message) && message@ == "LBRY SDK publish failed: "@
                + error@,
            Ok(None) => r matches Ok(link) && link@ == claim_link(
                name@,
                claim_id_of(found_view(output), found_view(result)),
            ),
        },
{
    match fault {
        Err(error) => {
            let mut message = "LBRY SDK returned invalid JSON: ".to_owned();
            message.append(error.as_str());
            Err(message)
        },
        Ok(Some(error)) => {
            let mut message = "LBRY SDK publish failed: ".to_owned();
            message.append(error.as_str());
            Err(message)
        },
        Ok(None) => {
            let claim_id = match output {
                Some(Some(id)) => id,
                Some(None) => String::new(),
                None => match result {
                    Some(Some(id)) => id,
                    _ => String::new(),
                },
            };
            if claim_id.as_str().is_empty() {
                let mut link = "lbry://".to_owned();
                link.append(name);
                Ok(link)
            } else {
                let mut link = "https://odysee.com/".to_owned();
                link.append(name);
                link.append(":");
                link.append(claim_id.as_str());
                Ok(link)
            }
        },
    }
}

/// The link to the claim that was published at the SDK at `address`.
pub fn upload_odysee(reply: HttpReply, address: &str, name: &str) -> (r: Result<String, String>)
    ensures
        match odysee_outcome(reply, address@) {
            Err(fault) => r matches Err(message) && message@ == fault,
            Ok(body) => match json::json_member(vstd::utf8::encode_utf8(body), "error"@) {
                Err(error) => r matches Err(message) && message@
                    == "LBRY SDK returned invalid JSON: "@ + error,
                Ok(Some(error)) => r matches Err(message) && message@
                    == "LBRY SDK publish failed: "@ + error,
                Ok(None) => r matches Ok(link) && link@ == claim_link(
                    name@,
                    claim_id_of(
                        json::json_string(body, "/result/outputs/0/claim_id"@),
                        json::json_string(body, "/result/claim_id"@),
                    ),
                ),
            },
        },
{
    let mut unreachable_text = "Could not reach the local LBRY SDK at ".to_owned();
    unreachable_text.append(address);
    unreachable_text.append(": ");
    match oauth::reply_body(
        reply,
        unreachable_text.as_str(),
        "Could not read the LBRY SDK response: ",
        "LBRY SDK publish failed",
    ) {
        Err(message) => Err(message),
        Ok(body) => publication_link(
            name,
            json::read_member(body.as_str().as_bytes(), "error"),
            json::read_string(body.as_str(), "/result/outputs/0/claim_id"),
            json::read_string(body.as_str(), "/result/claim_id"),
        ),
    }
}

} // verus!
