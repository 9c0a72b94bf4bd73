//! What is published, where, and under which name.

use vstd::prelude::*;

use crate::config::AppConfig;
use crate::laws::documents;
use crate::laws::replay;
use crate::model::{
    Clip, EditProject, Platform, PublishJob, PublishStatus, PublishTarget, Visibility,
};
use crate::oauth::HttpReply;
use crate::publish;
use crate::publish::{PublishError, PublishEvent, PublishQueue, PublishRun, PublishStep};
use crate::services::clock;
use crate::services::clock::Timestamp;
use crate::services::ids;
use crate::services::json;
use crate::services::letters;
use crate::text;
use crate::uploads;
use crate::uploads::StartReply;

verus! {

/// Behind the start of a document that ends with a quote, and the text in it, the rest.
proof fn lemma_tells(s: Seq<char>, before: Seq<char>, start: Seq<char>, t: Seq<char>, rest: Seq<char>)
    requires
        s == before + json::json_quoted(t) + rest,
        start == before.push('"'),
    ensures
        documents::tells(s, start, t, rest),
{
    documents::quoted_texts_are_read_back(before, t, rest);
}

/// Read as JSON, what YouTube is told has the job's own description and title, and the
/// visibility that was chosen, in lower case.
pub proof fn youtube_is_told_the_job(job: PublishJob, visibility: Visibility, label: &'static str, r: String)
    requires
        call_ensures(uploads::youtube_body, (&job, visibility), r),
        call_ensures(Visibility::label, (visibility,), label),
    ensures
        exists|title: Seq<char>, status: Seq<char>|
            #![trigger documents::tells(
                r@,
                "{\"snippet\":{\"categoryId\":\"20\",\"description\":\""@,
                job.description@,
                title,
            ), documents::tells(
                status,
                "},\"status\":{\"privacyStatus\":\""@,
                text::ascii_lowered(label@),
                ",\"selfDeclaredMadeForKids\":false}}"@,
            )]
            {
                &&& documents::tells(
                    r@,
                    "{\"snippet\":{\"categoryId\":\"20\",\"description\":\""@,
                    job.description@,
                    title,
                )
                &&& documents::tells(title, ",\"title\":\""@, job.title@, status)
                &&& documents::tells(
                    status,
                    "},\"status\":{\"privacyStatus\":\""@,
                    text::ascii_lowered(label@),
                    ",\"selfDeclaredMadeForKids\":false}}"@,
                )
            },
{
    let end = ",\"selfDeclaredMadeForKids\":false}}"@;
    let privacy = visibility.youtube_name();
    lemma_youtube_names(visibility);
    let a = "{\"snippet\":{\"categoryId\":\"20\",\"description\":"@;
    let b = ",\"title\":"@;
    let c = "},\"status\":{\"privacyStatus\":"@;
    let status = c + json::json_quoted(privacy) + end;
    let title = b + json::json_quoted(job.title@) + status;
    assert(r@ =~= a + json::json_quoted(job.description@) + title);
    reveal_strlit("{\"snippet\":{\"categoryId\":\"20\",\"description\":");
    reveal_strlit("{\"snippet\":{\"categoryId\":\"20\",\"description\":\"");
    reveal_strlit(",\"title\":");
    reveal_strlit(",\"title\":\"");
    reveal_strlit("},\"status\":{\"privacyStatus\":");
    reveal_strlit("},\"status\":{\"privacyStatus\":\"");
    assert("{\"snippet\":{\"categoryId\":\"20\",\"description\":\""@ =~= a.push('"'));
    assert(",\"title\":\""@ =~= b.push('"'));
    assert("},\"status\":{\"privacyStatus\":\""@ =~= c.push('"'));
    lemma_tells(r@, a, "{\"snippet\":{\"categoryId\":\"20\",\"description\":\""@, job.description@, title);
    lemma_tells(title, b, ",\"title\":\""@, job.title@, status);
    lemma_tells(status, c, "},\"status\":{\"privacyStatus\":\""@, privacy, end);
}

/// YouTube calls each visibility by its name in lower case.
proof fn lemma_youtube_names(visibility: Visibility)
    ensures
        visibility.youtube_name() == text::ascii_lowered(visibility.name()),
{
    reveal_strlit("public");
    reveal_strlit("unlisted");
    reveal_strlit("private");
    reveal_strlit("Public");
    reveal_strlit("Unlisted");
    reveal_strlit("Private");
    assert(visibility.youtube_name() =~= text::ascii_lowered(visibility.name()));
}

/// Two jobs that differ in their title or description, or visibilities that differ, are
/// told to YouTube differently.
pub proof fn youtube_tells_jobs_apart(
    a: PublishJob,
    b: PublishJob,
    x: Visibility,
    y: Visibility,
    r: String,
    s: String,
)
    requires
        call_ensures(uploads::youtube_body, (&a, x), r),
        call_ensures(uploads::youtube_body, (&b, y), s),
        r@ == s@,
    ensures
        a.description@ == b.description@,
        a.title@ == b.title@,
        x == y,
{
    let end = ",\"selfDeclaredMadeForKids\":false}}"@;
    let p = "{\"snippet\":{\"categoryId\":\"20\",\"description\":"@;
    let q = ",\"title\":"@;
    let t = "},\"status\":{\"privacyStatus\":"@;
    let a3 = t + json::json_quoted(x.youtube_name()) + end;
    let b3 = t + json::json_quoted(y.youtube_name()) + end;
    let a2 = q + json::json_quoted(a.title@) + a3;
    let b2 = q + json::json_quoted(b.title@) + b3;
    assert(r@ =~= p + json::json_quoted(a.description@) + a2);
    assert(s@ =~= p + json::json_quoted(b.description@) + b2);
    documents::quoted_texts_are_read_back(p, a.description@, a2);
    documents::quoted_texts_are_read_back(p, b.description@, b2);
    documents::quoted_texts_are_read_back(q, a.title@, a3);
    documents::quoted_texts_are_read_back(q, b.title@, b3);
    documents::quoted_texts_are_read_back(t, x.youtube_name(), end);
    documents::quoted_texts_are_read_back(t, y.youtube_name(), end);
    crate::model::visibilities_are_told_apart(x, y);
}

/// Where YouTube takes an upload, the file goes to the address it names; in every other
/// case there is no address, and the reason given is told at the end of the message.
pub proof fn uploads_go_where_youtube_says(reply: StartReply, r: Result<String, String>)
    requires
        call_ensures(uploads::upload_address, (reply,), r),
    ensures
        r is Ok <==> (reply matches StartReply::Answered { success, location, .. } && success
            && location is Some),
        reply matches StartReply::Answered { success: true, location: Some(address), .. } ==> r
            == Ok::<String, String>(address),
        reply matches StartReply::NotSent(error) ==> (r matches Err(message) && ends_with(
            message@,
            error@,
        ) && text::starts_with(message@, "Could not start the YouTube upload: "@)),
        reply matches StartReply::Answered { success: false, status, body, .. } ==> (r matches Err(
            message,
        ) && ends_with(message@, body@) && text::starts_with(
            message@,
            "YouTube rejected the upload ("@ + status@,
        )),
        reply matches StartReply::Answered { success: true, location: None, .. } ==> (r matches Err(
            message,
        ) && message@ == "YouTube did not return a resumable upload URL"@),
{
    if let StartReply::NotSent(error) = reply {
        if let Err(message) = r {
            let front = "Could not start the YouTube upload: "@;
            assert(message@.subrange(0, front.len() as int) =~= front);
            assert(message@.skip(message@.len() - error@.len()) =~= error@);
        }
    }
    if let StartReply::Answered { success, status, body, .. } = reply {
        if let Err(message) = r {
            if !success {
                let front = "YouTube rejected the upload ("@ + status@;
                assert(message@.subrange(0, front.len() as int) =~= front);
                assert(message@.skip(message@.len() - body@.len()) =~= body@);
            }
        }
    }
}

/// The text ends with another.
pub open spec fn ends_with(s: Seq<char>, end: Seq<char>) -> bool {
    s.len() >= end.len() && s.skip(s.len() - end.len()) == end
}

/// The link to a video ends with the video's identifier, and there is none without one.
pub proof fn video_links_lead_to_the_video(id: Option<Option<String>>, r: Result<String, String>)
    requires
        call_ensures(uploads::video_link, (id,), r),
    ensures
        r is Ok <==> (id matches Some(found) && found is Some),
        r matches Ok(link) ==> link@ == "https://youtu.be/"@ + id.unwrap().unwrap()@,
{
}

/// A video was uploaded exactly where the answer is a success that holds its identifier.
pub proof fn only_successful_uploads_have_links(reply: HttpReply, r: Result<String, String>)
    requires
        call_ensures(uploads::upload_youtube, (reply,), r),
    ensures
        r matches Ok(link) ==> (reply matches HttpReply::Answered { success, body, .. } && success
            && (json::json_string(body@, "/id"@) matches Some(Some(id)) && link@ == "https://youtu.be/"@ + id)),
        (reply matches HttpReply::Answered { success, body, .. } && success
            && (json::json_string(body@, "/id"@) matches Some(Some(_)))) ==> r is Ok,
{
}

/// Read as JSON, what the LBRY SDK is asked has the bid, the job's description, file and
/// title, and the name of the claim; and the channel, exactly where one is configured.
pub proof fn odysee_is_told_the_job(
    job: PublishJob,
    config: AppConfig,
    name: &str,
    entered: &str,
    channel: String,
    r: String,
)
    requires
        call_ensures(uploads::odysee_body, (&job, &config, name), r),
        entered@ == config.odysee_channel_id@,
        call_ensures(text::trimmed, (entered,), channel),
    ensures
        exists|s1: Seq<char>, s2: Seq<char>, s3: Seq<char>, s4: Seq<char>, s5: Seq<char>|
            #![trigger documents::tells(r@, "{\"method\":\"publish\",\"params\":{\"bid\":\""@, config.odysee_bid@, s1), documents::tells(s2, ",\"description\":\""@, job.description@, s3), documents::tells(s4, ",\"name\":\""@, name@, s5)]
            {
                &&& documents::tells(
                    r@,
                    "{\"method\":\"publish\",\"params\":{\"bid\":\""@,
                    config.odysee_bid@,
                    s1,
                )
                &&& channel@.len() == 0 ==> s1 == ",\"blocking\":true"@ + s2
                &&& channel@.len() > 0 ==> documents::tells(
                    s1,
                    ",\"blocking\":true,\"channel_id\":\""@,
                    channel@,
                    s2,
                )
                &&& documents::tells(s2, ",\"description\":\""@, job.description@, s3)
                &&& documents::tells(s3, ",\"file_path\":\""@, job.clip_path@, s4)
                &&& documents::tells(s4, ",\"name\":\""@, name@, s5)
                &&& documents::tells(
                    s5,
                    ",\"optimize_file\":false,\"preview\":false,\"title\":\""@,
                    job.title@,
                    ",\"validate_file\":true}}"@,
                )
            },
{
    let end = ",\"validate_file\":true}}"@;
    let a = "{\"method\":\"publish\",\"params\":{\"bid\":"@;
    let block = ",\"blocking\":true"@;
    let chan = ",\"channel_id\":"@;
    let b = ",\"description\":"@;
    let c = ",\"file_path\":"@;
    let d = ",\"name\":"@;
    let e = ",\"optimize_file\":false,\"preview\":false,\"title\":"@;
    let s5 = e + json::json_quoted(job.title@) + end;
    let s4 = d + json::json_quoted(name@) + s5;
    let s3 = c + json::json_quoted(job.clip_path@) + s4;
    let s2 = b + json::json_quoted(job.description@) + s3;
    let s1 = block + uploads::channel_part(config) + s2;
    lemma_regrouped(
        a + json::json_quoted(config.odysee_bid@),
        block,
        uploads::channel_part(config),
        b + json::json_quoted(job.description@),
        c + json::json_quoted(job.clip_path@),
        d + json::json_quoted(name@),
        e + json::json_quoted(job.title@),
        end,
    );
    assert(a + json::json_quoted(config.odysee_bid@) + block + uploads::channel_part(config) + b
        + json::json_quoted(job.description@) =~= a + json::json_quoted(config.odysee_bid@) + block
        + uploads::channel_part(config) + (b + json::json_quoted(job.description@)));
    let upto = a + json::json_quoted(config.odysee_bid@) + block + uploads::channel_part(config) + (b
        + json::json_quoted(job.description@));
    lemma_pushed_twice(upto, c, json::json_quoted(job.clip_path@));
    lemma_pushed_twice(upto + (c + json::json_quoted(job.clip_path@)), d, json::json_quoted(name@));
    lemma_pushed_twice(
        upto + (c + json::json_quoted(job.clip_path@)) + (d + json::json_quoted(name@)),
        e,
        json::json_quoted(job.title@),
    );
    lemma_quotes_open();
    lemma_tells(r@, a, "{\"method\":\"publish\",\"params\":{\"bid\":\""@, config.odysee_bid@, s1);
    lemma_tells(s2, b, ",\"description\":\""@, job.description@, s3);
    lemma_tells(s3, c, ",\"file_path\":\""@, job.clip_path@, s4);
    lemma_tells(s4, d, ",\"name\":\""@, name@, s5);
    lemma_tells(
        s5,
        e,
        ",\"optimize_file\":false,\"preview\":false,\"title\":\""@,
        job.title@,
        end,
    );
    if channel@.len() > 0 {
        assert(s1 =~= (block + chan) + json::json_quoted(channel@) + s2);
        lemma_tells(s1, block + chan, ",\"blocking\":true,\"channel_id\":\""@, channel@, s2);
    } else {
        assert(s1 =~= block + s2);
    }
}

/// What is appended one after the other may be put together from the end.
proof fn lemma_regrouped(
    a: Seq<char>,
    b: Seq<char>,
    c: Seq<char>,
    d: Seq<char>,
    e: Seq<char>,
    f: Seq<char>,
    g: Seq<char>,
    h: Seq<char>,
)
    ensures
        a + b + c + d + e + f + g + h == a + (b + c + (d + (e + (f + (g + h))))),
{
    assert(a + b + c + d + e + f + g + h =~= a + (b + c + (d + (e + (f + (g + h))))));
}

/// Two texts may be appended together.
proof fn lemma_pushed_twice(a: Seq<char>, b: Seq<char>, c: Seq<char>)
    ensures
        a + b + c == a + (b + c),
{
    assert(a + b + c =~= a + (b + c));
}

/// Each part of a publication ends where a quoted text begins.
proof fn lemma_quotes_open()
    ensures
        "{\"method\":\"publish\",\"params\":{\"bid\":\""@
            == "{\"method\":\"publish\",\"params\":{\"bid\":"@.push('"'),
        ",\"description\":\""@ == ",\"description\":"@.push('"'),
        ",\"file_path\":\""@ == ",\"file_path\":"@.push('"'),
        ",\"name\":\""@ == ",\"name\":"@.push('"'),
        ",\"optimize_file\":false,\"preview\":false,\"title\":\""@
            == ",\"optimize_file\":false,\"preview\":false,\"title\":"@.push('"'),
        ",\"blocking\":true,\"channel_id\":\""@ == (",\"blocking\":true"@
            + ",\"channel_id\":"@).push('"'),
{
    reveal_strlit("{\"method\":\"publish\",\"params\":{\"bid\":");
    reveal_strlit("{\"method\":\"publish\",\"params\":{\"bid\":\"");
    reveal_strlit(",\"blocking\":true");
    reveal_strlit(",\"channel_id\":");
    reveal_strlit(",\"blocking\":true,\"channel_id\":\"");
    reveal_strlit(",\"description\":");
    reveal_strlit(",\"description\":\"");
    reveal_strlit(",\"file_path\":");
    reveal_strlit(",\"file_path\":\"");
    reveal_strlit(",\"name\":");
    reveal_strlit(",\"name\":\"");
    reveal_strlit(",\"optimize_file\":false,\"preview\":false,\"title\":");
    reveal_strlit(",\"optimize_file\":false,\"preview\":false,\"title\":\"");
}

/// The claim that is asked for is the one that the title and the job's identifier give.
pub proof fn publications_ask_for_their_claim(
    job: PublishJob,
    config: AppConfig,
    title: &str,
    name: String,
    claim: &str,
    body: String,
    r: (String, String),
)
    requires
        call_ensures(uploads::odysee_publication, (&job, &config), r),
        title@ == job.title@,
        call_ensures(publish::odysee_claim_name, (title, job.id), name),
        claim@ == name@,
        call_ensures(uploads::odysee_body, (&job, &config, claim), body),
    ensures
        r.0@ == name@,
        r.1@ == body@,
{
}

/// A claim that was made is linked by its name and identifier, and by its name alone where
/// the answer tells no identifier; an answer with an error makes no link.
pub proof fn claims_are_linked(
    name: &str,
    fault: Result<Option<String>, String>,
    output: Option<Option<String>>,
    result: Option<Option<String>>,
    r: Result<String, String>,
)
    requires
        call_ensures(uploads::publication_link, (name, fault, output, result), r),
    ensures
        r is Ok <==> fault == Ok::<Option<String>, String>(None),
        r is Ok && (output matches Some(Some(id)) && id@.len() > 0) ==> r.unwrap()@
            == "https://odysee.com/"@ + name@ + ":"@ + output.unwrap().unwrap()@,
        r is Ok && output is None && (result matches Some(Some(id)) && id@.len() > 0) ==> r.unwrap()@
            == "https://odysee.com/"@ + name@ + ":"@ + result.unwrap().unwrap()@,
        r is Ok && output is None && result is None ==> r.unwrap()@ == "lbry://"@ + name@,
        fault matches Ok(Some(error)) ==> (r matches Err(message) && ends_with(message@, error@)),
        fault matches Err(error) ==> (r matches Err(message) && ends_with(message@, error@)),
{
    if let Ok(Some(error)) = fault {
        if let Err(message) = r {
            assert(message@.skip(message@.len() - error@.len()) =~= error@);
        }
    }
    if let Err(error) = fault {
        if let Err(message) = r {
            assert(message@.skip(message@.len() - error@.len()) =~= error@);
        }
    }
}

/// A queue takes a job exactly where it has an enabled destination and no enabled one lacks
/// the visibility asked for; the job is then the last, and is kept as it is.
pub proof fn queues_take_what_can_be_published(
    queue: &mut PublishQueue,
    job: PublishJob,
    r: Result<(), PublishError>,
)
    requires
        call_ensures(PublishQueue::enqueue, (queue, job), r),
    ensures
        r is Ok <==> (exists|i: int| 0 <= i < job.targets@.len() && (#[trigger] job.targets@[i]).enabled)
            && forall|i: int|
            0 <= i < job.targets@.len() && (#[trigger] job.targets@[i]).enabled
                && job.targets@[i].platform == Platform::Odysee ==> job.targets@[i].visibility
                == Visibility::Public,
        r is Ok ==> final(queue).jobs@ == old(queue).jobs@.push(job),
        r is Err ==> final(queue).jobs@ == old(queue).jobs@,
        r == Err::<(), _>(PublishError::NoDestination) <==> forall|i: int|
            0 <= i < job.targets@.len() ==> !(#[trigger] job.targets@[i]).enabled,
{
    match r {
        Ok(_) => {
            publish::accepted_jobs_promise_no_false_privacy(job);
            assert(publish::any_enabled(job.targets@));
        },
        Err(PublishError::NoDestination) => {
            assert(!publish::any_enabled(job.targets@));
        },
        Err(PublishError::UnsupportedVisibility(platform, visibility)) => {
            let i = choose|i: int| #[trigger]
                publish::first_refused(job.targets@, i) && platform@
                    == job.targets@[i].platform.name() && visibility@
                    == job.targets@[i].visibility.name();
            assert(publish::is_refused(job.targets@[i]));
            assert(job.targets@[i].enabled);
        },
    }
}

/// The message about a visibility names the platform and the visibility.
pub proof fn refusals_name_what_is_refused(
    target: PublishTarget,
    platform: &'static str,
    visibility: &'static str,
    error: PublishError,
    r: String,
)
    requires
        call_ensures(Platform::label, (target.platform,), platform),
        call_ensures(Visibility::label, (target.visibility,), visibility),
        error == PublishError::UnsupportedVisibility(platform, visibility),
        call_ensures(PublishError::message, (&error,), r),
    ensures
        r@ == platform@ + " does not support "@ + visibility@ + " visibility"@,
        target.platform == Platform::YouTube ==> platform@ == "YouTube"@,
        target.platform == Platform::Odysee ==> platform@ == "Odysee"@,
{
}

/// YouTube can publish with every visibility, Odysee with the public one only, and nothing
/// is offered twice.
pub proof fn platforms_offer_what_they_can_keep(platform: Platform, r: &'static [Visibility])
    requires
        call_ensures(Platform::supported_visibilities, (platform,), r),
    ensures
        forall|v: Visibility|
            r@.contains(v) <==> platform == Platform::YouTube || v == Visibility::Public,
        forall|i: int, j: int| 0 <= i < j < r@.len() ==> r@[i] != r@[j],
        r@.len() > 0 && r@[0] == Visibility::Public,
{
}

/// An event is noted on its own job, which keeps everything but its status; the other jobs
/// stay as they are.
pub proof fn events_are_noted_on_their_job(queue: &mut PublishQueue, event: PublishEvent, k: int)
    requires
        call_ensures(PublishQueue::apply, (queue, event), ()),
        0 <= k < old(queue).jobs@.len(),
    ensures
        final(queue).jobs@.len() == old(queue).jobs@.len(),
        ({
            let (id, status) = match event {
                PublishEvent::Progress { job_id, platform, progress_percent } => (
                    job_id,
                    PublishStatus::Uploading { platform, progress_percent },
                ),
                PublishEvent::Complete { job_id, .. } => (job_id, PublishStatus::Complete),
                PublishEvent::Failed { job_id, error } => (job_id, PublishStatus::Failed(error)),
            };
            let before = old(queue).jobs@[k];
            let after = final(queue).jobs@[k];
            &&& before.id != id ==> after == before
            &&& before.id == id && (forall|j: int|
                0 <= j < k ==> (#[trigger] old(queue).jobs@[j]).id != id) ==> after == (PublishJob {
                status,
                ..before
            })
        }),
{
    publish::jobs_keep_their_destinations(old(queue).jobs@, event, final(queue).jobs@);
    let jobs = old(queue).jobs@;
    let id = event.about();
    if publish::no_job(jobs, id) {
    } else if jobs[k].id == id && (forall|j: int| 0 <= j < k ==> (#[trigger] jobs[j]).id != id) {
        assert(publish::first_job(jobs, id, k));
    } else {
        lemma_first_exists(jobs, id, jobs.len() as int);
        let i = choose|i: int| publish::first_job(jobs, id, i);
        assert(publish::first_job(jobs, id, i));
        assert(jobs[k].id != id ==> k != i);
    }
}

/// Of the jobs with an identifier, one is the first.
proof fn lemma_first_exists(jobs: Seq<PublishJob>, id: u128, n: int)
    requires
        0 <= n <= jobs.len(),
        exists|i: int| 0 <= i < n && (#[trigger] jobs[i]).id == id,
    ensures
        exists|i: int| publish::first_job(jobs, id, i),
    decreases n,
{
    let i = choose|i: int| 0 <= i < n && (#[trigger] jobs[i]).id == id;
    if exists|j: int| 0 <= j < i && (#[trigger] jobs[j]).id == id {
        lemma_first_exists(jobs, id, i);
    } else {
        assert(publish::first_job(jobs, id, i));
    }
}

/// A job goes to its enabled destinations, in their order, and to no other.
pub proof fn jobs_go_to_their_destinations(job: PublishJob, r: PublishRun)
    requires
        call_ensures(PublishRun::new, (&job,), r),
    ensures
        r.job_id == job.id,
        !r.stopped,
        r.links@.len() == 0,
        exists|at: Seq<int>|
            #![trigger at.len()]
            {
                &&& at.len() == r.targets@.len()
                &&& forall|i: int|
                    0 <= i < at.len() ==> 0 <= #[trigger] at[i] < job.targets@.len()
                        && r.targets@[i] == job.targets@[at[i]] && r.targets@[i].enabled
                &&& forall|i: int, j: int|
                    0 <= i < j < at.len() ==> #[trigger] at[i] < #[trigger] at[j]
                &&& forall|x: int|
                    0 <= x < job.targets@.len() && (#[trigger] job.targets@[x]).enabled
                        ==> at.contains(x)
            },
{
    let wanted = |target: PublishTarget| target.enabled;
    let n = job.targets@.len() as int;
    replay::lemma_places(job.targets@, wanted, n);
    assert(job.targets@.take(n) =~= job.targets@);
    let at = replay::places(job.targets@, wanted, n);
    assert(r.links.deep_view().len() == r.links@.len());
    assert(r.targets@ == job.targets@.filter(wanted));
    assert forall|i: int| 0 <= i < at.len() implies 0 <= #[trigger] at[i] < job.targets@.len()
        && r.targets@[i] == job.targets@[at[i]] && r.targets@[i].enabled by {
        assert(wanted(job.targets@[at[i]]));
    }
    assert forall|x: int| 0 <= x < job.targets@.len() && (#[trigger] job.targets@[x]).enabled implies at.contains(
    x) by {
        assert(wanted(job.targets@[x]));
    }
    assert(at.len() == r.targets@.len());
}

/// The destination that comes next is the first without a link; after a failure, or once
/// all have one, there is none. A job is complete exactly where every destination has its
/// link, and then tells them all.
pub proof fn jobs_take_one_destination_after_the_other(
    run: PublishRun,
    r: PublishStep,
    done: Option<PublishEvent>,
)
    requires
        run.wf(),
        call_ensures(PublishRun::next, (&run,), r),
        call_ensures(PublishRun::finish, (run,), done),
    ensures
        r == PublishStep::Done <==> run.stopped || run.links@.len() == run.targets@.len(),
        r matches PublishStep::Upload(target) ==> target == run.targets@[run.links@.len() as int],
        done is Some <==> r == PublishStep::Done && !run.stopped,
        done matches Some(event) ==> event == (PublishEvent::Complete {
            job_id: run.job_id,
            links: run.links,
        }),
{
}

/// Progress is told about the job and platform that it is of, and never falls: a twentieth
/// when a destination is begun, a fifth once the file is taken, and all of it at the end.
pub proof fn progress_never_falls(
    run: &mut PublishRun,
    platform: Platform,
    link: String,
    begun: PublishEvent,
    accepted: PublishEvent,
    uploaded: PublishEvent,
)
    requires
        old(run).wf(),
        old(run).links@.len() < old(run).targets@.len(),
        call_ensures(PublishRun::begun, (&*old(run), platform), begun),
        call_ensures(PublishRun::accepted, (&*old(run), platform), accepted),
        call_ensures(PublishRun::uploaded, (run, platform, Ok::<String, String>(link)), uploaded),
    ensures
        begun matches PublishEvent::Progress { job_id, platform: p, progress_percent: a } && job_id
            == old(run).job_id && p == platform && (accepted matches PublishEvent::Progress {
            job_id: j,
            platform: q,
            progress_percent: b,
        } && j == old(run).job_id && q == platform && a == 5 && b == 20),
        uploaded == (PublishEvent::Progress {
            job_id: old(run).job_id,
            platform,
            progress_percent: 100,
        }),
        final(run).links@ == old(run).links@.push(link),
        final(run).stopped == old(run).stopped,
        final(run).targets@ == old(run).targets@,
{
}

/// A failure ends the job, and is told with its reason.
pub proof fn failures_end_the_job(
    run: &mut PublishRun,
    platform: Platform,
    error: String,
    r: PublishEvent,
    next: PublishStep,
    done: Option<PublishEvent>,
)
    requires
        old(run).wf(),
        old(run).links@.len() < old(run).targets@.len(),
        call_ensures(PublishRun::uploaded, (run, platform, Err::<String, String>(error)), r),
        call_ensures(PublishRun::next, (&*final(run),), next),
        call_ensures(PublishRun::finish, (*final(run),), done),
    ensures
        r == (PublishEvent::Failed { job_id: old(run).job_id, error }),
        next == PublishStep::Done,
        done is None,
        final(run).links@ == old(run).links@,
{
}

/// A word of small letters and digits is kept in the name of its claim.
pub proof fn plain_words_name_their_claim(word: Vec<char>, id: u128, r: String)
    requires
        call_ensures(publish::claim_name_of, (&word, id), r),
        0 < word@.len() <= 32,
        forall|i: int|
            0 <= i < word@.len() ==> 'a' <= #[trigger] word@[i] <= 'z' || '0' <= word@[i] <= '9',
    ensures
        r@.take(word@.len() as int) == word@,
        r@.len() == word@.len() + 9,
        documents::hex_number(r@.skip(word@.len() as int + 1)) == id / 0x1_0000_0000_0000_0000_0000_0000,
{
    assert(publish::dashed(word@) =~= word@);
    assert(!word@.contains('-'));
    text::lemma_split_one(word@, '-');
    lemma_one_word(word@);
    let name = publish::claim_name(word@, id as nat);
    lemma_sixteen_powers();
    publish::claim_names_are_valid(word@, id as nat);
    reveal_strlit("-");
    assert(name =~= word@ + "-"@ + ids::hex(id as nat, 32).take(8));
    ids::lemma_hex(id as nat, 32);
    assert(r@.take(word@.len() as int) =~= word@);
    assert(r@.skip(word@.len() as int + 1) =~= ids::hex(id as nat, 32).take(8));
    lemma_hex_front(id as nat, 32, 8);
    let v = documents::hex_number(ids::hex(id as nat, 32).take(8));
    assert(v == id as int / 0x1_0000_0000_0000_0000_0000_0000) by (nonlinear_arith)
        requires
            v * 0x1_0000_0000_0000_0000_0000_0000 <= id < (v + 1)
                * 0x1_0000_0000_0000_0000_0000_0000,
    ;
}

/// One word is its own slug.
proof fn lemma_one_word(word: Seq<char>)
    requires
        word.len() > 0,
        !word.contains('-'),
        publish::dashed(word) == word,
    ensures
        publish::slug(word) == word,
{
    text::lemma_split_one(word, '-');
    reveal(Seq::filter);
    let parts = seq![word];
    assert(parts.drop_last() =~= Seq::empty());
    assert(publish::filled(parts) =~= parts);
    assert(parts[0] == word);
}

/// Two words with any other characters but small letters and digits between them are joined
/// by a dash.
pub proof fn words_are_joined_by_a_dash(a: Seq<char>, gap: char, b: Seq<char>)
    requires
        a.len() > 0,
        b.len() > 0,
        forall|i: int| 0 <= i < a.len() ==> publish::is_plain(#[trigger] a[i]),
        forall|i: int| 0 <= i < b.len() ==> publish::is_plain(#[trigger] b[i]),
        !('a' <= gap <= 'z' || 'A' <= gap <= 'Z' || '0' <= gap <= '9'),
    ensures
        publish::slug(a.push(gap) + b) == a.push('-') + b,
        publish::slug(a.push(gap).push(gap) + b) == a.push('-') + b,
        publish::slug(seq![gap] + a) == a,
        publish::slug(a.push(gap)) == a,
{
    let none = Seq::<char>::empty();
    assert(!a.contains('-') && !b.contains('-'));
    text::lemma_split_one(a, '-');
    text::lemma_split_one(none, '-');
    reveal(Seq::filter);
    reveal_strlit("-");
    assert(publish::dashed(a.push(gap) + b) =~= a.push('-') + b);
    text::lemma_split_last(a, b, '-');
    lemma_filled_words(seq![a, b]);
    assert(text::split(a.push('-') + b, '-') =~= seq![a, b]);
    assert(seq![a, b].drop_last() =~= seq![a]);
    lemma_filled_gap(a, none, b);
    assert(text::join(seq![a, b], "-"@) =~= a.push('-') + b);

    assert(publish::dashed(a.push(gap).push(gap) + b) =~= a.push('-').push('-') + b);
    text::lemma_split_last(a, none, '-');
    assert(a.push('-') + none =~= a.push('-'));
    text::lemma_split_last(a.push('-'), b, '-');
    assert(text::split(a.push('-').push('-') + b, '-') =~= seq![a, none, b]);

    assert(publish::dashed(seq![gap] + a) =~= none.push('-') + a);
    text::lemma_split_last(none, a, '-');
    assert(text::split(none.push('-') + a, '-') =~= seq![none, a]);
    lemma_filled_two(none, a);

    assert(publish::dashed(a.push(gap)) =~= a.push('-') + none);
    assert(text::split(a.push('-') + none, '-') =~= seq![a, none]);
    lemma_filled_two(a, none);
}

/// What is filled among two pieces.
proof fn lemma_filled_two(a: Seq<char>, b: Seq<char>)
    ensures
        a.len() == 0 && b.len() > 0 ==> publish::filled(seq![a, b]) == seq![b] && text::join(
            publish::filled(seq![a, b]),
            "-"@,
        ) == b,
        a.len() > 0 && b.len() == 0 ==> publish::filled(seq![a, b]) == seq![a] && text::join(
            publish::filled(seq![a, b]),
            "-"@,
        ) == a,
        a.len() > 0 && b.len() > 0 ==> publish::filled(seq![a, b]) == seq![a, b],
{
    reveal(Seq::filter);
    reveal_with_fuel(Seq::filter, 3);
    let two = seq![a, b];
    let one = two.drop_last();
    assert(one =~= seq![a]);
    assert(one.drop_last() =~= Seq::empty());
    assert(two.last() == b && one.last() == a);
    assert(seq![a][0] == a && seq![b][0] == b);
    if a.len() > 0 && b.len() > 0 {
        assert(publish::filled(two) =~= seq![a, b]);
    } else if a.len() > 0 {
        assert(publish::filled(two) =~= seq![a]);
    } else if b.len() > 0 {
        assert(publish::filled(two) =~= seq![b]);
    }
}

/// Two filled pieces stay.
proof fn lemma_filled_words(parts: Seq<Seq<char>>)
    requires
        parts.len() == 2,
        parts[0].len() > 0,
        parts[1].len() > 0,
    ensures
        publish::filled(parts) == parts,
{
    assert(parts =~= seq![parts[0], parts[1]]);
    lemma_filled_two(parts[0], parts[1]);
}

/// An empty piece between two falls away.
proof fn lemma_filled_gap(a: Seq<char>, none: Seq<char>, b: Seq<char>)
    requires
        a.len() > 0,
        none.len() == 0,
        b.len() > 0,
    ensures
        publish::filled(seq![a, none, b]) == seq![a, b],
        text::join(seq![a, b], "-"@) == a + "-"@ + b,
{
    reveal(Seq::filter);
    let three = seq![a, none, b];
    assert(three.drop_last() =~= seq![a, none]);
    assert(three.last() == b);
    lemma_filled_two(a, none);
    assert(publish::filled(three) =~= seq![a].push(b));
    assert(seq![a].push(b) =~= seq![a, b]);
    assert(seq![a, b].drop_last() =~= seq![a]);
    assert(seq![a][0] == a);
}

/// The first digits of an identifier are those of its upper part.
proof fn lemma_hex_front(n: nat, width: nat, front: nat)
    requires
        front <= width,
        n < documents::sixteen_to(width),
    ensures
        ({
            let v = documents::hex_number(ids::hex(n, width).take(front as int));
            let p = documents::sixteen_to((width - front) as nat);
            v * p <= n < (v + 1) * p
        }),
    decreases width,
{
    documents::hexadecimal_reads_back(n, width);
    let v = documents::hex_number(ids::hex(n, width).take(front as int));
    if front == width {
        assert(ids::hex(n, width).take(front as int) =~= ids::hex(n, width));
        assert(documents::sixteen_to(0) == 1);
        assert(v * 1 == v && (v + 1) * 1 == v + 1);
    } else {
        let w = (width - 1) as nat;
        assert(n / 16 < documents::sixteen_to(w)) by (nonlinear_arith)
            requires
                n < 16 * documents::sixteen_to(w),
        ;
        lemma_hex_front(n / 16, w, front);
        ids::lemma_hex(n / 16, w);
        assert(ids::hex(n, width).take(front as int) =~= ids::hex(n / 16, w).take(front as int));
        let p = documents::sixteen_to((w - front) as nat);
        let q = documents::sixteen_to((width - front) as nat);
        assert((w - front) as nat == ((width - front) as nat - 1) as nat);
        assert(q == 16 * p);
        let m = n as int / 16;
        assert(v * q <= n < (v + 1) * q) by (nonlinear_arith)
            requires
                q == 16 * p,
                v * p <= m < (v + 1) * p,
                16 * m <= n < 16 * m + 16,
        ;
    }
}

/// The powers of sixteen that identifiers are cut at.
pub proof fn lemma_sixteen_powers()
    ensures
        documents::sixteen_to(24) == 0x1_0000_0000_0000_0000_0000_0000,
        documents::sixteen_to(32) == 0x1_0000_0000_0000_0000_0000_0000_0000_0000,
{
    reveal_with_fuel(documents::sixteen_to, 33);
}

/// An edit begins no later than it ends, whatever is asked for; what can be had is taken as
/// asked, and moving one end leaves the other.
pub proof fn edits_keep_to_the_clip(
    edit: &mut EditProject,
    millis: u64,
)
    requires
        old(edit).trim_start_millis <= old(edit).trim_end_millis,
        call_ensures(EditProject::set_start, (edit, millis), ()),
    ensures
        final(edit).trim_start_millis <= final(edit).trim_end_millis,
        final(edit).trim_end_millis == old(edit).trim_end_millis,
        final(edit).clip_id == old(edit).clip_id,
        millis <= old(edit).trim_end_millis ==> final(edit).trim_start_millis == millis,
        millis > old(edit).trim_end_millis ==> final(edit).trim_start_millis == old(
            edit,
        ).trim_end_millis,
{
}

/// The end of an edit lies between its beginning and the end of the clip.
pub proof fn edits_end_within_the_clip(edit: &mut EditProject, millis: u64, length: u64)
    requires
        old(edit).trim_start_millis <= length,
        call_ensures(EditProject::set_end, (edit, millis, length), ()),
    ensures
        final(edit).trim_start_millis == old(edit).trim_start_millis,
        final(edit).clip_id == old(edit).clip_id,
        final(edit).trim_start_millis <= final(edit).trim_end_millis <= length,
        old(edit).trim_start_millis <= millis <= length ==> final(edit).trim_end_millis == millis,
        millis > length ==> final(edit).trim_end_millis == length,
        millis < old(edit).trim_start_millis ==> final(edit).trim_end_millis == old(
            edit,
        ).trim_start_millis,
{
}

/// A new edit keeps the whole clip; the edit at hand is kept for its own clip only.
pub proof fn edits_belong_to_their_clip(
    current: Option<EditProject>,
    clip: Clip,
    r: EditProject,
    whole: EditProject,
)
    requires
        call_ensures(EditProject::of_clip, (current, &clip), r),
        call_ensures(EditProject::for_clip, (&clip,), whole),
    ensures
        whole.clip_id == clip.id,
        whole.trim_start_millis == 0,
        whole.trim_end_millis == clip.duration_millis,
        r.clip_id == clip.id,
        (current matches Some(project) && project.clip_id == clip.id) ==> r == current.unwrap(),
        !(current matches Some(project) && project.clip_id == clip.id) ==> r == whole,
{
}

/// A new destination is off and public.
pub proof fn new_destinations_are_off(platform: Platform, r: PublishTarget)
    requires
        call_ensures(PublishTarget::new, (platform,), r),
    ensures
        r.platform == platform,
        !r.enabled,
        r.visibility == Visibility::Public,
{
}

/// The help for a platform names what it takes: Google's sign-in, or the local SDK.
pub proof fn help_is_of_the_platform(r: &'static str, s: &'static str)
    requires
        call_ensures(publish::connection_help, (Platform::YouTube,), r),
        call_ensures(publish::connection_help, (Platform::Odysee,), s),
    ensures
        text::contains(r@, "Google OAuth"@),
        text::contains(s@, "LBRY SDK"@),
{
    reveal_strlit("Google OAuth");
    reveal_strlit("LBRY SDK");
    reveal_strlit(
        "Requires Google OAuth with the youtube.upload scope. Public uploads require an audited API project.",
    );
    reveal_strlit(
        "Publishes through the local LBRY SDK. LBRY claims are public; private and unlisted visibility are not available.",
    );
    assert(r@.subrange(9, 9int + "Google OAuth"@.len()) =~= "Google OAuth"@);
    assert(text::occurs_at(r@, "Google OAuth"@, 9));
    assert(s@.subrange(28, 28int + "LBRY SDK"@.len()) =~= "LBRY SDK"@);
    assert(text::occurs_at(s@, "LBRY SDK"@, 28));
}

/// YouTube is told a visibility by its name in lower case.
pub proof fn visibilities_are_told_in_lower_case(
    visibility: Visibility,
    other: Visibility,
    label: &'static str,
    value: &'static str,
    another: &'static str,
)
    requires
        call_ensures(Visibility::label, (visibility,), label),
        call_ensures(Visibility::youtube_value, (visibility,), value),
        call_ensures(Visibility::youtube_value, (other,), another),
    ensures
        value@ == text::ascii_lowered(label@),
        value@ == another@ ==> visibility == other,
        visibility == Visibility::Public ==> label@ == "Public"@,
        visibility == Visibility::Unlisted ==> label@ == "Unlisted"@,
        visibility == Visibility::Private ==> label@ == "Private"@,
{
    lemma_youtube_names(visibility);
    crate::model::visibilities_are_told_apart(visibility, other);
}

/// A new clip has the path and length given to it, and is titled by the time it was made at.
pub proof fn new_clips_are_titled_by_their_time(
    id: u128,
    path: String,
    millis: u64,
    at: Timestamp,
    stamp: &str,
    r: Clip,
    s: Clip,
)
    requires
        call_ensures(Clip::stamped, (id, path, millis, at, stamp), r),
        call_ensures(Clip::new, (path, millis), s),
    ensures
        r.id == id && r.path@ == path@ && r.duration_millis == millis && r.created_at == at,
        r.title@ == "Xyra clip "@ + stamp@ && r.description@.len() == 0,
        s.path@ == path@ && s.duration_millis == millis && s.description@.len() == 0,
        clock::was_read(s.created_at) && ids::is_drawn(s.id),
        clock::utc_text(s.created_at.seconds, s.created_at.nanos, "%Y-%m-%d %H:%M"@) matches Some(
            shown,
        ) && s.title@ == "Xyra clip "@ + shown,
{
}

/// Of two times the one with more seconds is after the other, and at the same second the one
/// with more nanoseconds; no time is after itself.
pub proof fn times_are_compared_in_turn(a: Timestamp, b: Timestamp, r: bool, s: bool)
    requires
        call_ensures(Timestamp::after, (&a, &b), r),
        call_ensures(Timestamp::after, (&b, &a), s),
    ensures
        a.seconds > b.seconds ==> r,
        a.seconds == b.seconds && a.nanos > b.nanos ==> r,
        !(r && s),
        a != b ==> r || s,
{
}

/// A queue begins empty, and is as long as it has jobs.
pub proof fn queues_begin_empty(r: PublishQueue, empty: bool, n: usize, q: PublishQueue, jobs: &[PublishJob])
    requires
        call_ensures(PublishQueue::is_empty, (&q,), empty),
        call_ensures(PublishQueue::len, (&q,), n),
        call_ensures(PublishQueue::jobs, (&q,), jobs),
        call_ensures(<PublishQueue as Default>::default, (), r),
    ensures
        r.jobs@.len() == 0,
        jobs@ == q.jobs@,
        n == q.jobs@.len(),
        empty <==> n == 0,
{
}

/// What the SDK answers is a claim exactly where it is a success without an error in it; the
/// SDK's own reason is told else.
pub proof fn claims_are_made_by_the_sdk(
    reply: HttpReply,
    address: &str,
    name: &str,
    r: Result<String, String>,
)
    requires
        call_ensures(uploads::upload_odysee, (reply, address, name), r),
    ensures
        r is Ok <==> (reply matches HttpReply::Answered { success, body, .. } && success
            && json::json_member(vstd::utf8::encode_utf8(body@), "error"@) == Ok::<
            Option<Seq<char>>,
            Seq<char>,
        >(None)),
        reply matches HttpReply::NotSent(reason) ==> r.unwrap_err()@
            == "Could not reach the local LBRY SDK at "@ + address@ + ": "@ + reason@,
        (reply matches HttpReply::Answered { success, body, .. } && success && (json::json_member(
            vstd::utf8::encode_utf8(body@),
            "error"@,
        ) matches Ok(Some(reason)) && r is Err)) ==> ends_with(
            r.unwrap_err()@,
            json::json_member(vstd::utf8::encode_utf8(reply->body@), "error"@)->Ok_0->0,
        ),
        r matches Ok(link) ==> {
            let body = reply->body@;
            let first = json::json_string(body, "/result/outputs/0/claim_id"@);
            let second = json::json_string(body, "/result/claim_id"@);
            &&& (first matches Some(Some(id)) && id.len() > 0) ==> link@ == "https://odysee.com/"@
                + name@ + ":"@ + first->0->0
            &&& first is None && (second matches Some(Some(id)) && id.len() > 0) ==> link@
                == "https://odysee.com/"@ + name@ + ":"@ + second->0->0
            &&& first is None && second is None ==> link@ == "lbry://"@ + name@
        },
{
    if let HttpReply::Answered { success, body, .. } = reply {
        if success {
            if let Ok(Some(reason)) = json::json_member(vstd::utf8::encode_utf8(body@), "error"@) {
                let told = r.unwrap_err()@;
                assert(told.skip(told.len() - reason.len()) =~= reason);
            }
        }
    }
}

/// A longer word is cut after thirty-two characters; a title without letters or digits is
/// named by the program.
pub proof fn long_words_are_cut(word: Vec<char>, id: u128, r: String)
    requires
        call_ensures(publish::claim_name_of, (&word, id), r),
    ensures
        word@.len() > 32 && (forall|i: int|
            0 <= i < word@.len() ==> 'a' <= #[trigger] word@[i] <= 'z' || '0' <= word@[i] <= '9')
            ==> r@.len() == 41 && r@.take(32) == word@.take(32) && r@[32] == '-',
        (forall|i: int| 0 <= i < word@.len() ==> !publish::is_plain(#[trigger] word@[i])) ==> r@.len()
            == 18 && r@.take(9) == "xyra-clip"@,
{
    publish::claim_names_are_valid(word@, id as nat);
    ids::lemma_hex(id as nat, 32);
    reveal_strlit("-");
    reveal_strlit("xyra-clip");
    if word@.len() > 32 && (forall|i: int|
        0 <= i < word@.len() ==> 'a' <= #[trigger] word@[i] <= 'z' || '0' <= word@[i] <= '9') {
        assert(publish::dashed(word@) =~= word@);
        assert(!word@.contains('-'));
        lemma_one_word(word@);
        assert(r@.take(32) =~= word@.take(32));
    }
    if forall|i: int| 0 <= i < word@.len() ==> !publish::is_plain(#[trigger] word@[i]) {
        lemma_no_words(word@);
        assert(r@.take(9) =~= "xyra-clip"@);
    }
}

/// Without letters and digits there are no words.
proof fn lemma_no_words(chars: Seq<char>)
    requires
        forall|i: int| 0 <= i < chars.len() ==> !publish::is_plain(#[trigger] chars[i]),
    ensures
        publish::slug(chars) == Seq::<char>::empty(),
{
    let marked = publish::dashed(chars);
    assert forall|i: int| 0 <= i < marked.len() implies marked[i] == '-' by {
        assert(!publish::is_plain(chars[i]));
    }
    lemma_only_empty_pieces(marked);
}

/// Between dashes alone there is nothing.
proof fn lemma_only_empty_pieces(marked: Seq<char>)
    requires
        forall|i: int| 0 <= i < marked.len() ==> #[trigger] marked[i] == '-',
    ensures
        publish::filled(text::split(marked, '-')) == Seq::<Seq<char>>::empty(),
    decreases marked.len(),
{
    reveal(Seq::filter);
    reveal_with_fuel(Seq::filter, 3);
    let none = Seq::<char>::empty();
    if marked.len() == 0 {
        text::lemma_split_one(marked, '-');
        let parts = text::split(marked, '-');
        assert(parts.drop_last() =~= Seq::empty());
        assert(parts.last().len() == 0);
    } else {
        let front = marked.drop_last();
        lemma_only_empty_pieces(front);
        assert(marked.last() == '-');
        assert(marked =~= front.push('-') + none);
        text::lemma_split_last(front, none, '-');
        let parts = text::split(marked, '-');
        assert(parts.drop_last() =~= text::split(front, '-'));
        assert(parts.last() == none);
    }
}

/// The words of a title stand in the name of its claim with a dash between them, whatever
/// stood there.
pub proof fn titles_of_two_words_name_their_claim(
    chars: Vec<char>,
    a: Seq<char>,
    gap: char,
    b: Seq<char>,
    id: u128,
    r: String,
)
    requires
        call_ensures(publish::claim_name_of, (&chars, id), r),
        a.len() > 0,
        b.len() > 0,
        a.len() + b.len() < 32,
        forall|i: int| 0 <= i < a.len() ==> 'a' <= #[trigger] a[i] <= 'z' || '0' <= a[i] <= '9',
        forall|i: int| 0 <= i < b.len() ==> 'a' <= #[trigger] b[i] <= 'z' || '0' <= b[i] <= '9',
        !('a' <= gap <= 'z' || 'A' <= gap <= 'Z' || '0' <= gap <= '9'),
        chars@ == a.push(gap) + b || chars@ == a.push(gap).push(gap) + b,
    ensures
        r@.take(a.len() as int + 1 + b.len()) == a.push('-') + b,
        r@.len() == a.len() + 1 + b.len() + 9,
{
    words_are_joined_by_a_dash(a, gap, b);
    ids::lemma_hex(id as nat, 32);
    reveal_strlit("-");
    assert(r@.take(a.len() as int + 1 + b.len()) =~= a.push('-') + b);
}

/// A title names its claim as its characters in lower case do.
pub proof fn titles_name_their_claim_in_lower_case(
    title: &str,
    lowered: Vec<char>,
    id: u128,
    r: String,
    s: String,
)
    requires
        call_ensures(publish::odysee_claim_name, (title, id), r),
        lowered@ == lowered_one_by_one(title@),
        call_ensures(publish::claim_name_of, (&lowered, id), s),
    ensures
        r@ == s@,
{
    lemma_lowered(title@);
}

/// The characters in lower case, one after the other.
pub open spec fn lowered_one_by_one(s: Seq<char>) -> Seq<char>
    decreases s.len(),
{
    if s.len() == 0 {
        Seq::empty()
    } else {
        letters::char_lower(s[0]) + lowered_one_by_one(s.drop_first())
    }
}

/// From the front or from the back, the same comes out.
proof fn lemma_lowered(s: Seq<char>)
    ensures
        publish::lowered_chars(s) == lowered_one_by_one(s),
    decreases s.len(),
{
    if s.len() == 1 {
        assert(s.drop_last() =~= Seq::empty() && s.drop_first() =~= Seq::empty());
        assert(publish::lowered_chars(s.drop_last()) =~= Seq::empty());
        assert(lowered_one_by_one(s.drop_first()) =~= Seq::empty());
        assert(publish::lowered_chars(s) =~= lowered_one_by_one(s));
    } else if s.len() > 1 {
        let front = s.drop_last();
        let back = s.drop_first();
        let middle = front.drop_first();
        assert(back.drop_last() =~= middle);
        lemma_lowered(front);
        lemma_lowered(back);
        lemma_lowered(middle);
        assert(front[0] == s[0] && back.last() == s.last());
        let a = letters::char_lower(s[0]);
        let z = letters::char_lower(s.last());
        assert(publish::lowered_chars(s) =~= a + lowered_one_by_one(middle) + z);
        assert(lowered_one_by_one(s) =~= a + (publish::lowered_chars(middle) + z));
    }
}

} // verus!
