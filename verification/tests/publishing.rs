use xyra::capture::CaptureError;
use xyra::config::AppConfig;
use xyra::credentials::{DeleteAnswer, SecretAnswer, delete_secret, read_secret};
use xyra::model::{
    Clip, EditProject, Platform, PublishJob, PublishStatus, PublishTarget, Visibility,
};
use xyra::oauth::{
    GoogleToken, HttpReply, OAuthRequest, access_token, callback_code, check_client_id,
    client_secret, connected_page, exchange_form, exchange_reply, finish_youtube_oauth,
    refresh_form, refresh_reply, refresh_token_to_store, refresh_token_to_use, request_target,
    start_youtube_oauth, youtube_connected,
};
use xyra::publish::{
    PublishError, PublishEvent, PublishQueue, PublishRun, PublishStep, claim_name_of,
    connection_help, odysee_claim_name,
};
use xyra::services::clock::Timestamp;
use xyra::session::{auto_queue_targets, publish_job, queue_publish, take_saved};
use xyra::uploads::{
    StartReply, odysee_body, odysee_publication, upload_address, upload_odysee, upload_youtube,
    youtube_body,
};

fn job(targets: Vec<PublishTarget>) -> PublishJob {
    PublishJob {
        id: 0x1234_5678_0000_0000_0000_0000_0000_0001,
        clip_id: 2,
        clip_path: "clip.mp4".into(),
        title: "test".into(),
        description: String::new(),
        targets,
        created_at: Timestamp {
            seconds: 0,
            nanos: 0,
        },
        status: PublishStatus::Queued,
    }
}

fn enabled(platform: Platform, visibility: Visibility) -> PublishTarget {
    let mut target = PublishTarget::new(platform);
    target.enabled = true;
    target.visibility = visibility;
    target
}

#[test]
fn youtube_accepts_unlisted() {
    let mut queue = PublishQueue::default();
    let mut target = PublishTarget::new(Platform::YouTube);
    target.enabled = true;
    target.visibility = Visibility::Unlisted;
    assert!(queue.enqueue(job(vec![target])).is_ok());
}

#[test]
fn odysee_rejects_false_privacy_promise() {
    let mut queue = PublishQueue::default();
    let mut target = PublishTarget::new(Platform::Odysee);
    target.enabled = true;
    target.visibility = Visibility::Private;
    assert_eq!(
        queue.enqueue(job(vec![target])),
        Err(PublishError::UnsupportedVisibility("Odysee", "Private"))
    );
}

#[test]
fn odysee_rejects_unlisted() {
    let mut queue = PublishQueue::default();
    let mut target = PublishTarget::new(Platform::Odysee);
    target.enabled = true;
    target.visibility = Visibility::Unlisted;
    assert_eq!(
        queue.enqueue(job(vec![target])),
        Err(PublishError::UnsupportedVisibility("Odysee", "Unlisted"))
    );
}

#[test]
fn refused_jobs_leave_the_queue_alone() {
    let mut queue = PublishQueue::default();
    assert!(queue.is_empty());
    assert_eq!(
        queue.enqueue(job(vec![PublishTarget::new(Platform::YouTube)])),
        Err(PublishError::NoDestination)
    );
    assert_eq!(
        queue.enqueue(job(vec![
            enabled(Platform::YouTube, Visibility::Private),
            enabled(Platform::Odysee, Visibility::Private),
        ])),
        Err(PublishError::UnsupportedVisibility("Odysee", "Private"))
    );
    assert_eq!(queue.len(), 0);
    let switched_off = PublishTarget {
        enabled: false,
        visibility: Visibility::Private,
        platform: Platform::Odysee,
    };
    assert!(
        queue
            .enqueue(job(vec![
                switched_off,
                enabled(Platform::YouTube, Visibility::Public)
            ]))
            .is_ok()
    );
    assert_eq!(queue.len(), 1);
    assert_eq!(queue.jobs()[0].title, "test");
    assert_eq!(
        PublishError::NoDestination.message(),
        "select at least one destination"
    );
    assert_eq!(
        PublishError::UnsupportedVisibility("Odysee", "Private").message(),
        "Odysee does not support Private visibility"
    );
    assert!(connection_help(Platform::Odysee).contains("LBRY claims are public"));
}

#[test]
fn jobs_are_changed_in_place() {
    let mut queue = PublishQueue::default();
    let id = job(vec![]).id;
    assert!(
        queue
            .enqueue(job(vec![enabled(Platform::YouTube, Visibility::Public)]))
            .is_ok()
    );
    queue.job_mut(id).unwrap().title = "renamed".to_owned();
    assert_eq!(queue.jobs()[0].title, "renamed");
    assert!(queue.job_mut(9).is_none());
    queue.apply(PublishEvent::Progress {
        job_id: id,
        platform: Platform::YouTube,
        progress_percent: 20,
    });
    assert!(matches!(
        queue.jobs()[0].status,
        PublishStatus::Uploading {
            platform: Platform::YouTube,
            progress_percent: 20
        }
    ));
    queue.apply(PublishEvent::Failed {
        job_id: 9,
        error: "other".to_owned(),
    });
    queue.apply(PublishEvent::Complete {
        job_id: id,
        links: vec![],
    });
    assert!(matches!(queue.jobs()[0].status, PublishStatus::Complete));
    assert_eq!(
        queue.jobs()[0].targets,
        [enabled(Platform::YouTube, Visibility::Public)]
    );
    assert_eq!(queue.jobs()[0].clip_path, "clip.mp4");
    queue.apply(PublishEvent::Failed {
        job_id: id,
        error: "late".to_owned(),
    });
    match &queue.jobs()[0].status {
        PublishStatus::Failed(error) => assert_eq!(error, "late"),
        _ => panic!("the job has failed"),
    }
}

#[test]
fn visibilities_have_names_of_their_own() {
    let all = Platform::YouTube.supported_visibilities();
    let told: Vec<&str> = all.iter().map(|each| each.youtube_value()).collect();
    assert_eq!(told, ["public", "unlisted", "private"]);
    let shown: Vec<&str> = all.iter().map(|each| each.label()).collect();
    assert_eq!(shown, ["Public", "Unlisted", "Private"]);
    assert_eq!(
        Platform::Odysee.supported_visibilities(),
        [Visibility::Public]
    );
}

#[test]
fn jobs_run_through_their_destinations() {
    let youtube = enabled(Platform::YouTube, Visibility::Unlisted);
    let odysee = enabled(Platform::Odysee, Visibility::Public);
    let made = job(vec![
        youtube,
        PublishTarget::new(Platform::YouTube),
        odysee,
    ]);
    let mut run = PublishRun::new(&made);
    assert_eq!(run.next(), PublishStep::Upload(youtube));
    assert!(matches!(
        run.begun(Platform::YouTube),
        PublishEvent::Progress {
            progress_percent: 5,
            ..
        }
    ));
    assert!(matches!(
        run.accepted(Platform::YouTube),
        PublishEvent::Progress {
            progress_percent: 20,
            ..
        }
    ));
    run.uploaded(Platform::YouTube, Ok("link1".to_owned()));
    assert_eq!(run.next(), PublishStep::Upload(odysee));
    run.uploaded(Platform::Odysee, Ok("link2".to_owned()));
    assert_eq!(run.next(), PublishStep::Done);
    match run.finish() {
        Some(PublishEvent::Complete { job_id, links }) => {
            assert_eq!(job_id, made.id);
            assert_eq!(links, ["link1", "link2"]);
        }
        _ => panic!("the job is complete"),
    }

    let mut failing = PublishRun::new(&made);
    assert!(matches!(
        failing.uploaded(Platform::YouTube, Err("offline".to_owned())),
        PublishEvent::Failed { .. }
    ));
    assert_eq!(failing.next(), PublishStep::Done);
    assert!(failing.finish().is_none());
}

#[test]
fn claim_names_are_slugs() {
    let id = 0x1234_5678_9abc_def0_0000_0000_0000_0000;
    assert_eq!(odysee_claim_name("My  BEST -- play!", id), "my-best-play-12345678");
    assert_eq!(odysee_claim_name("Ärger ÜBER", id), "rger-ber-12345678");
    assert_eq!(odysee_claim_name("???", id), "xyra-clip-12345678");
    assert_eq!(odysee_claim_name("", 1), "xyra-clip-00000000");
    assert_eq!(odysee_claim_name("--a__b--", id), "a-b-12345678");
    let long = "a".repeat(50);
    assert_eq!(odysee_claim_name(&long, id).len(), 41);
    assert_eq!(odysee_claim_name("K\u{130}", id), "ki-12345678");
    assert_eq!(claim_name_of(&vec!['A', 'b', '_', '9'], id), "Ab-9-12345678");
}

fn sign_in() -> OAuthRequest {
    OAuthRequest::prepare(" id & co ".to_owned(), "s".to_owned(), 4711, 10, 1, 2).unwrap()
}

#[test]
fn sign_in_addresses() {
    let request = sign_in();
    assert_eq!(request.redirect_uri, "http://127.0.0.1:4711/oauth/callback");
    assert_eq!(request.state, "0000000000000000000000000000000a");
    assert_eq!(
        request.verifier,
        "0000000000000000000000000000000100000000000000000000000000000002"
    );
    assert_eq!(
        request.auth_url,
        "https://accounts.google.com/o/oauth2/v2/auth?client_id=id+%26+co\
&redirect_uri=http%3A%2F%2F127.0.0.1%3A4711%2Foauth%2Fcallback&response_type=code\
&scope=https%3A%2F%2Fwww.googleapis.com%2Fauth%2Fyoutube.upload&access_type=offline&prompt=consent\
&state=0000000000000000000000000000000a\
&code_challenge=4FIvy5x1UjDt7XFFFiJ2wVZNx3d_Z3L7ns8R-A80dC8&code_challenge_method=S256"
    );
}

#[test]
fn sign_ins_differ() {
    let first = start_youtube_oauth("id".to_owned(), String::new(), 1).unwrap();
    let second = start_youtube_oauth("id".to_owned(), String::new(), 1).unwrap();
    assert_ne!(first.state, second.state);
    assert_ne!(first.verifier, second.verifier);
    assert_eq!(first.verifier.len(), 64);
    assert_eq!(
        start_youtube_oauth(" \t".to_owned(), String::new(), 1).unwrap_err(),
        "Enter a Google OAuth desktop client ID first"
    );
    assert!(check_client_id("x").is_ok());
}

#[test]
fn callbacks_yield_codes() {
    let request = b"GET /oauth/callback?state=abc&code=4%2F0A&scope=x HTTP/1.1\r\nHost: h\r\n\r\n";
    assert_eq!(finish_youtube_oauth(request, "abc").unwrap(), "4/0A");
    assert_eq!(
        finish_youtube_oauth(request, "other").unwrap_err(),
        "Google callback security state did not match"
    );
    assert_eq!(
        finish_youtube_oauth(b"GET /?code=1 HTTP/1.1\r\n", "abc").unwrap_err(),
        "Google callback did not contain the security state"
    );
    assert_eq!(
        finish_youtube_oauth(b"GET /?state=abc&error=access_denied HTTP/1.1\r\n", "abc")
            .unwrap_err(),
        "Google sign-in was not completed: access_denied"
    );
    assert_eq!(
        finish_youtube_oauth(b"GET /?state=abc HTTP/1.1\r\n", "abc").unwrap_err(),
        "Google callback did not contain an authorization code"
    );
    assert_eq!(
        finish_youtube_oauth(b"", "abc").unwrap_err(),
        "Google returned an invalid callback"
    );
    assert!(
        finish_youtube_oauth(b"GET :x HTTP/1.1\r\n", "abc")
            .unwrap_err()
            .starts_with("Google returned an invalid callback URL: ")
    );
    assert_eq!(request_target("  GET\t/p  HTTP").unwrap(), "/p");
}

#[test]
fn the_last_value_counts() {
    let pair = |name: &str, value: &str| (name.to_owned(), value.to_owned());
    let pairs = vec![
        pair("state", "wrong"),
        pair("code", "1"),
        pair("state", "right"),
        pair("code", "2"),
    ];
    assert_eq!(callback_code(&pairs, "right").unwrap(), "2");
    assert!(callback_code(&pairs, "wrong").is_err());
}

fn form(pairs: Vec<(String, String)>) -> String {
    let parts: Vec<String> = pairs
        .iter()
        .map(|(name, value)| format!("{}={}", name, value))
        .collect();
    parts.join("&")
}

#[test]
fn token_forms() {
    assert_eq!(
        form(exchange_form("id", "c", "v", "r", "")),
        "client_id=id&code=c&code_verifier=v&redirect_uri=r&grant_type=authorization_code"
    );
    assert_eq!(
        form(refresh_form("id", "t", "s")),
        "client_id=id&refresh_token=t&grant_type=refresh_token&client_secret=s"
    );
    assert_eq!(client_secret("a".to_owned(), Some("b".to_owned())), "a");
    assert_eq!(client_secret(String::new(), Some("b".to_owned())), "b");
    assert_eq!(client_secret(String::new(), None), "");
}

fn answered(success: bool, body: &str) -> HttpReply {
    HttpReply::Answered {
        success,
        status: "400 Bad Request".to_owned(),
        body: body.to_owned(),
    }
}

#[test]
fn token_replies() {
    assert_eq!(exchange_reply(answered(true, "b")).unwrap(), "b");
    assert_eq!(
        exchange_reply(answered(false, "b")).unwrap_err(),
        "Google token exchange failed (400 Bad Request): b"
    );
    assert_eq!(
        exchange_reply(HttpReply::NotSent("e".to_owned())).unwrap_err(),
        "Could not exchange the Google authorization code: e"
    );
    assert_eq!(
        refresh_reply(HttpReply::Unread("e".to_owned())).unwrap_err(),
        "Could not read Google's token response: e"
    );
    assert_eq!(
        refresh_reply(HttpReply::NotSent("e".to_owned())).unwrap_err(),
        "Could not refresh YouTube authorization: e"
    );
    assert_eq!(
        refresh_reply(answered(false, "b")).unwrap_err(),
        "YouTube authorization failed (400 Bad Request): b"
    );
}

fn token(refresh: Option<&str>) -> Result<GoogleToken, String> {
    Ok(GoogleToken {
        access_token: "access".to_owned(),
        refresh_token: refresh.map(|value| value.to_owned()),
    })
}

#[test]
fn refresh_tokens_are_kept() {
    assert_eq!(
        refresh_token_to_store(token(Some("new")), Some("old".to_owned())).unwrap(),
        "new"
    );
    assert_eq!(
        refresh_token_to_store(token(Some("")), Some("old".to_owned())).unwrap(),
        "old"
    );
    assert_eq!(
        refresh_token_to_store(token(None), None).unwrap_err(),
        "Google did not return a refresh token; disconnect and try again"
    );
    assert_eq!(
        refresh_token_to_store(Err("e".to_owned()), None).unwrap_err(),
        "Invalid Google token: e"
    );
    assert_eq!(access_token(token(None)).unwrap(), "access");
    assert_eq!(
        access_token(Err("e".to_owned())).unwrap_err(),
        "Google returned an invalid access token: e"
    );
    assert_eq!(
        refresh_token_to_use(" ", Ok(Some("t".to_owned()))).unwrap_err(),
        "YouTube is not configured: add a Google OAuth desktop client ID"
    );
    assert_eq!(
        refresh_token_to_use("id", Ok(None)).unwrap_err(),
        "YouTube is not connected"
    );
    assert_eq!(
        refresh_token_to_use("id", Err("locked".to_owned())).unwrap_err(),
        "locked"
    );
    assert_eq!(
        refresh_token_to_use("id", Ok(Some("t".to_owned()))).unwrap(),
        "t"
    );
    assert!(youtube_connected(&Ok(Some("t".to_owned()))));
    assert!(!youtube_connected(&Ok(Some(String::new()))));
    assert!(!youtube_connected(&Err("e".to_owned())));
    assert!(connected_page().starts_with("HTTP/1.1 200 OK\r\n"));
    assert!(connected_page().ends_with("return to Xyra.</p></body>"));
}

#[test]
fn secrets_from_the_store() {
    assert_eq!(
        read_secret(SecretAnswer::Found("geheim \u{e4}".to_owned().into_bytes())).unwrap(),
        Some("geheim \u{e4}".to_owned())
    );
    assert!(
        read_secret(SecretAnswer::Found(vec![0xff]))
            .unwrap_err()
            .contains("invalid utf-8")
    );
    assert_eq!(read_secret(SecretAnswer::Nothing).unwrap(), None);
    assert_eq!(
        read_secret(SecretAnswer::Failed {
            code: Some(1168),
            message: "m".to_owned()
        })
        .unwrap(),
        None
    );
    assert_eq!(
        read_secret(SecretAnswer::Failed {
            code: Some(5),
            message: "denied".to_owned()
        })
        .unwrap_err(),
        "denied"
    );
    let failed = |code: Option<i32>| DeleteAnswer::Failed {
        code,
        message: "m".to_owned(),
    };
    assert!(delete_secret(DeleteAnswer::Deleted).is_ok());
    assert!(delete_secret(failed(Some(1168))).is_ok());
    assert_eq!(delete_secret(failed(Some(5))).unwrap_err(), "m");
    assert_eq!(delete_secret(failed(None)).unwrap_err(), "m");
}

#[test]
fn youtube_requests_and_replies() {
    let mut made = job(vec![]);
    made.title = "a \"b\"\n".to_owned();
    assert_eq!(
        youtube_body(&made, Visibility::Unlisted),
        "{\"snippet\":{\"categoryId\":\"20\",\"description\":\"\",\"title\":\"a \\\"b\\\"\\n\"},\"status\":{\"privacyStatus\":\"unlisted\",\"selfDeclaredMadeForKids\":false}}"
    );
    made.title = "\u{1}\u{8}\t\u{c}\r\u{1f}\\/\u{7f}é".to_owned();
    assert!(youtube_body(&made, Visibility::Public).contains(
        "\"title\":\"\\u0001\\b\\t\\f\\r\\u001f\\\\/\u{7f}é\"}"
    ));
    let reply = |success: bool, location: Option<&str>| StartReply::Answered {
        success,
        status: "403 Forbidden".to_owned(),
        body: "quota".to_owned(),
        location: location.map(|value| value.to_owned()),
    };
    assert_eq!(upload_address(reply(true, Some("u"))).unwrap(), "u");
    assert_eq!(
        upload_address(reply(true, None)).unwrap_err(),
        "YouTube did not return a resumable upload URL"
    );
    assert_eq!(
        upload_address(reply(false, Some("u"))).unwrap_err(),
        "YouTube rejected the upload (403 Forbidden): quota"
    );
    assert_eq!(
        upload_address(StartReply::NotSent("e".to_owned())).unwrap_err(),
        "Could not start the YouTube upload: e"
    );
    assert_eq!(
        upload_youtube(answered(true, "{\"id\": \"abc\"}")).unwrap(),
        "https://youtu.be/abc"
    );
    for body in ["{\"id\": 5}", "{}", "[1]", "no json"] {
        assert_eq!(
            upload_youtube(answered(true, body)).unwrap_err(),
            "YouTube uploaded the file but did not return a video ID"
        );
    }
    assert_eq!(
        upload_youtube(answered(false, "b")).unwrap_err(),
        "YouTube upload failed (400 Bad Request): b"
    );
}

#[test]
fn odysee_requests_and_replies() {
    let config = AppConfig {
        odysee_channel_id: " chan ".to_owned(),
        ..AppConfig::default()
    };
    let made = job(vec![]);
    let (name, body) = odysee_publication(&made, &config);
    assert_eq!(name, "test-12345678");
    assert_eq!(
        body,
        "{\"method\":\"publish\",\"params\":{\"bid\":\"0.01\",\"blocking\":true,\"channel_id\":\"chan\",\"description\":\"\",\"file_path\":\"clip.mp4\",\"name\":\"test-12345678\",\"optimize_file\":false,\"preview\":false,\"title\":\"test\",\"validate_file\":true}}"
    );
    assert!(!odysee_body(&made, &AppConfig::default(), "n").contains("channel_id"));
    let result = |body: &str| upload_odysee(answered(true, body), "http://sdk", "n");
    assert_eq!(
        result("{\"result\":{\"outputs\":[{\"claim_id\":\"c1\"}],\"claim_id\":\"c2\"}}").unwrap(),
        "https://odysee.com/n:c1"
    );
    assert_eq!(
        result("{\"result\":{\"claim_id\":\"c2\"}}").unwrap(),
        "https://odysee.com/n:c2"
    );
    assert_eq!(
        result("{\"result\":{\"outputs\":[{\"claim_id\":7}],\"claim_id\":\"c2\"}}").unwrap(),
        "lbry://n"
    );
    assert_eq!(
        result("{\"error\":{\"code\":1}}").unwrap_err(),
        "LBRY SDK publish failed: {\"code\":1}"
    );
    assert!(
        result("nothing")
            .unwrap_err()
            .starts_with("LBRY SDK returned invalid JSON: ")
    );
    assert_eq!(
        upload_odysee(HttpReply::NotSent("e".to_owned()), "http://sdk", "n").unwrap_err(),
        "Could not reach the local LBRY SDK at http://sdk: e"
    );
}

#[test]
fn clips_are_queued() {
    let clip = Clip::new("c.mp4".to_owned(), 9000);
    let targets = vec![enabled(Platform::YouTube, Visibility::Private)];
    let mut queue = PublishQueue::default();
    assert_eq!(
        queue_publish(&mut queue, None, &targets),
        "Select a clip before publishing"
    );
    assert_eq!(
        queue_publish(&mut queue, Some(&clip), &vec![]),
        "select at least one destination"
    );
    assert_eq!(
        queue_publish(
            &mut queue,
            Some(&clip),
            &vec![enabled(Platform::Odysee, Visibility::Private)]
        ),
        "Odysee does not support Private visibility"
    );
    assert!(queue.is_empty());
    assert_eq!(queue_publish(&mut queue, Some(&clip), &targets), "Upload queued");
    assert_eq!(queue.jobs()[0].clip_id, clip.id);
    assert_eq!(queue.jobs()[0].clip_path, "c.mp4");
    let time = Timestamp {
        seconds: 5,
        nanos: 6,
    };
    assert_eq!(publish_job(&clip, &targets, 7, time).created_at, time);
    let mut config = AppConfig::default();
    assert!(auto_queue_targets(&config).is_none());
    config.auto_queue_after_clip = true;
    assert_eq!(auto_queue_targets(&config).unwrap().len(), 2);
}

#[test]
fn saved_clips_come_first() {
    let mut clips = vec![Clip::new("old.mp4".to_owned(), 1000)];
    let mut queue = PublishQueue::default();
    let mut config = AppConfig::default();
    let saved = Clip::new("a.mp4".to_owned(), 1000);
    let (taken, shown) = take_saved(&mut clips, &mut queue, &config, Ok(saved));
    assert!(taken && queue.is_empty());
    assert_eq!(shown, "Saved the previous 1 sec to a.mp4");
    assert_eq!(clips[0].path, "a.mp4");
    config.auto_queue_after_clip = true;
    config.publish_targets[0].enabled = true;
    let saved = Clip::new("b.mp4".to_owned(), 1000);
    let id = saved.id;
    let (taken, shown) = take_saved(&mut clips, &mut queue, &config, Ok(saved));
    assert!(taken);
    assert_eq!(shown, "Upload queued");
    assert_eq!((queue.len(), queue.jobs()[0].clip_id), (1, id));
    assert_eq!(clips[0].path, "b.mp4");
    let (taken, shown) = take_saved(
        &mut clips,
        &mut queue,
        &config,
        Err(CaptureError::NotRunning),
    );
    assert!(!taken);
    assert_eq!(shown, "replay buffer is not running");
    assert_eq!((clips.len(), queue.len()), (3, 1));
}

#[test]
fn edits_stay_within_the_clip() {
    let clip = Clip::new("c.mp4".to_owned(), 9000);
    let other = Clip::new("d.mp4".to_owned(), 1000);
    assert_ne!(clip.id, other.id);
    let mut project = EditProject::for_clip(&clip);
    project.set_start(2000);
    project.set_end(99999, clip.duration_millis);
    assert_eq!((project.trim_start_millis, project.trim_end_millis), (2000, 9000));
    project.set_end(5, clip.duration_millis);
    assert_eq!(project.trim_end_millis, 2000);
    project.set_start(8000);
    assert_eq!(project.trim_start_millis, 2000);
    assert_eq!(EditProject::of_clip(Some(project), &clip).trim_end_millis, 2000);
    assert_eq!(EditProject::of_clip(Some(project), &other).trim_end_millis, 1000);
    assert_eq!(EditProject::of_clip(None, &clip).trim_end_millis, 9000);
}
