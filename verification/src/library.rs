//! The clips on disk.

use vstd::prelude::*;
use vstd::string::*;

use crate::model::Clip;
use crate::order;
use crate::order::Rank;
use crate::paths;
use crate::paths::HostSystem;
use crate::services::bytes;
use crate::services::clock;
use crate::services::clock::Timestamp;
use crate::services::ids;
use crate::text;

verus! {

/// The extension is that of a video, in whatever case it is written.
pub open spec fn is_video_extension(extension: Seq<char>) -> bool {
    let lower = text::ascii_lowered(extension);
    lower == "mp4"@ || lower == "mkv"@ || lower == "webm"@
}

/// The path names a video.
pub open spec fn names_video(host: HostSystem, path: Seq<char>) -> bool {
    paths::file_name(host, path) matches Some(name) && (paths::extension(name) matches Some(
        extension,
    ) && is_video_extension(extension))
}

/// Whether the path names a video.
pub fn is_video(host: HostSystem, path: &str) -> (r: bool)
    ensures
        r == names_video(host, path@),
{
    match paths::name_of(host, path) {
        Some(name) => match paths::extension_of(name.as_str()) {
            Some(extension) => {
                let lower = text::lowered(extension.as_str());
                text::same(lower.as_str(), "mp4") || text::same(lower.as_str(), "mkv")
                    || text::same(lower.as_str(), "webm")
            },
            None => false,
        },
        None => false,
    }
}

/// A video in the clips directory. Its name may be no text, so that `path` only resembles
/// it. The system may not tell when it was made, nor FFmpeg how long it is.
#[derive(Debug)]
pub struct ClipFile {
    pub path: String,
    pub name_is_text: bool,
    pub created: Option<Timestamp>,
    pub modified: Option<Timestamp>,
    pub duration_millis: Option<u64>,
}

impl ClipFile {
    /// When the clip was made: at its creation, else at its last change, else now.
    pub open spec fn made_at(self, now: Timestamp) -> Timestamp {
        match self.created {
            Some(time) => time,
            None => match self.modified {
                Some(time) => time,
                None => now,
            },
        }
    }

    /// When the clip was made.
    fn time(&self, now: Timestamp) -> (r: Timestamp)
        ensures
            r == self.made_at(now),
    {
        match self.created {
            Some(time) => time,
            None => match self.modified {
                Some(time) => time,
                None => now,
            },
        }
    }
}

/// The title of a clip that was found on disk: its file name without the extension, where
/// that is text.
pub open spec fn title_of(host: HostSystem, file: ClipFile) -> Seq<char> {
    match paths::file_name(host, file.path@) {
        Some(name) if file.name_is_text => paths::stem(name),
        _ => "Untitled clip"@,
    }
}

/// `clip` is what the file `file` is listed as.
pub open spec fn lists(clip: Clip, host: HostSystem, file: ClipFile, now: Timestamp) -> bool {
    &&& clip.path@ == file.path@
    &&& ids::is_drawn(clip.id)
    &&& clip.title@ == title_of(host, file)
    &&& clip.description@ == Seq::<char>::empty()
    &&& clip.created_at == file.made_at(now)
    &&& clip.duration_millis == match file.duration_millis {
        Some(millis) => millis,
        None => 0,
    }
}

/// Newer clips rank before older ones.
pub open spec fn clip_ranks(files: Seq<ClipFile>, now: Timestamp) -> Seq<Rank> {
    files.map_values(
        |file: ClipFile|
            Rank {
                first: (-(file.made_at(now).seconds as int)) as i128,
                second: (-(file.made_at(now).nanos as int)) as i128,
                third: 0,
            },
    )
}

/// `clips` are what the files are listed as, in the order of their ranks.
pub open spec fn lists_clips(
    host: HostSystem,
    files: Seq<ClipFile>,
    now: Timestamp,
    clips: Seq<Clip>,
) -> bool {
    exists|picked: Seq<usize>|
        #![trigger order::is_order(clip_ranks(files, now), picked)]
        {
            &&& order::is_order(clip_ranks(files, now), picked)
            &&& clips.len() == files.len()
            &&& forall|i: int|
                0 <= i < clips.len() ==> lists(
                    #[trigger] clips[i],
                    host,
                    files[picked[i] as int],
                    now,
                )
        }
}

/// `clips` are what the files are listed as at the time that the clock gave.
pub open spec fn lists_current_clips(
    host: HostSystem,
    files: Seq<ClipFile>,
    clips: Seq<Clip>,
) -> bool {
    exists|now: Timestamp| #[trigger] clock::was_read(now) && lists_clips(host, files, now, clips)
}

/// The clips that the files are listed as, the newest first; files of one time keep
/// their order. `now` stands for the time of a file that has none.
pub fn clips_from(host: HostSystem, files: &Vec<ClipFile>, now: Timestamp) -> (r: Vec<Clip>)
    ensures
        lists_clips(host, files@, now, r@),
{
    let mut ranks: Vec<Rank> = Vec::new();
    let mut i: usize = 0;
    while i < files.len()
        invariant
            i <= files.len(),
            ranks@ == clip_ranks(files@, now).take(i as int),
        decreases files.len() - i,
    {
        let time = files[i].time(now);
        ranks.push(
            Rank { first: -(time.seconds as i128), second: -(time.nanos as i128), third: 0 },
        );
        i += 1;
        assert(ranks@ =~= clip_ranks(files@, now).take(i as int));
    }
    assert(ranks@ =~= clip_ranks(files@, now));
    let picked = order::order_of(&ranks);
    let mut clips: Vec<Clip> = Vec::new();
    let mut k: usize = 0;
    while k < picked.len()
        invariant
            k <= picked.len() == files.len(),
            ranks@ == clip_ranks(files@, now),
            order::is_order(ranks@, picked@),
            clips@.len() == k,
            forall|i: int|
                0 <= i < k ==> lists(#[trigger] clips@[i], host, files@[picked@[i] as int], now),
        decreases picked.len() - k,
    {
        let file = &files[picked[k]];
        let title = match paths::name_of(host, file.path.as_str()) {
            Some(name) if file.name_is_text => paths::stem_of(name.as_str()),
            _ => "Untitled clip".to_owned(),
        };
        let millis: u64 = match file.duration_millis {
            Some(millis) => millis,
            None => 0,
        };
        let mut clip = Clip::new(file.path.clone(), millis);
        clip.title = title;
        clip.created_at = file.time(now);
        clips.push(clip);
        k += 1;
    }
    assert(order::is_order(clip_ranks(files@, now), picked@));
    clips
}

/// The clips that the files are listed as, the newest first.
pub fn scan_clips(host: HostSystem, files: &Vec<ClipFile>) -> (r: Vec<Clip>)
    ensures
        lists_current_clips(host, files@, r@),
{
    let now = clock::now();
    clips_from(host, files, now)
}

/// No clip in the list is newer than one that stands before it.
pub proof fn newest_clips_come_first(
    files: Seq<ClipFile>,
    now: Timestamp,
    picked: Seq<usize>,
    i: int,
    j: int,
)
    requires
        order::is_order(clip_ranks(files, now), picked),
        0 <= i < j < picked.len(),
    ensures
        !files[picked[j] as int].made_at(now).is_after(files[picked[i] as int].made_at(now)),
{
    let ranks = clip_ranks(files, now);
    assert(order::precedes(ranks, picked[i] as int, picked[j] as int));
    let a = picked[i] as int;
    let b = picked[j] as int;
    assert(ranks[a] == (Rank {
        first: (-(files[a].made_at(now).seconds as int)) as i128,
        second: (-(files[a].made_at(now).nanos as int)) as i128,
        third: 0,
    }));
    assert(ranks[b] == (Rank {
        first: (-(files[b].made_at(now).seconds as int)) as i128,
        second: (-(files[b].made_at(now).nanos as int)) as i128,
        third: 0,
    }));
}

/// What FFmpeg says the length of a file is: the text behind the first mention of a
/// duration, up to the next mention or comma.
pub open spec fn duration_part(output: Seq<char>) -> Option<Seq<char>> {
    match text::find(output, "Duration: "@) {
        Some(i) => Some(
            text::up_to(
                text::up_to(output.skip(i + "Duration: "@.len()), "Duration: "@),
                ","@,
            ),
        ),
        None => None,
    }
}

/// What FFmpeg says the length of a file is.
pub fn duration_text(output: &str) -> (r: Option<String>)
    ensures
        match r {
            Some(found) => duration_part(output@) == Some(found@),
            None => duration_part(output@) is None,
        },
{
    let chars = text::chars_of(output);
    let mark = text::chars_of("Duration: ");
    match text::position(&chars, &mark) {
        Some(i) => {
            assert(i + mark.len() <= chars.len());
            let rest = text::text_of(&chars, i + mark.len(), chars.len());
            assert(rest@ =~= output@.skip(i + "Duration: "@.len()));
            let next = text::before(rest.as_str(), "Duration: ");
            Some(text::before(next.as_str(), ","))
        },
        None => None,
    }
}

/// The hours, minutes and seconds of a time, where it has exactly these three.
pub open spec fn time_fields(timestamp: Seq<char>) -> Option<(Seq<char>, Seq<char>, Seq<char>)> {
    let parts = text::split(text::trim(timestamp), ':');
    if parts.len() == 3 {
        Some((parts[0], parts[1], parts[2]))
    } else {
        None
    }
}

/// The hours, minutes and seconds of a time.
pub fn duration_fields(timestamp: &str) -> (r: Option<(String, String, String)>)
    ensures
        match r {
            Some(fields) => time_fields(timestamp@) == Some((fields.0@, fields.1@, fields.2@)),
            None => time_fields(timestamp@) is None,
        },
{
    let trimmed = text::trimmed(timestamp);
    let parts = text::pieces(trimmed.as_str(), ':');
    assert(parts.deep_view().len() == parts@.len());
    if parts.len() == 3 {
        assert(parts.deep_view()[0] == parts@[0]@ && parts.deep_view()[1] == parts@[1]@
            && parts.deep_view()[2] == parts@[2]@);
        Some((parts[0].clone(), parts[1].clone(), parts[2].clone()))
    } else {
        None
    }
}

/// The hours, minutes and seconds that FFmpeg's output tells of a file.
pub fn probed_fields(stderr: &[u8]) -> (r: Option<(String, String, String)>)
    ensures
        match duration_part(bytes::utf8_lossy(stderr@)) {
            None => r is None,
            Some(part) => match r {
                Some(fields) => time_fields(part) == Some((fields.0@, fields.1@, fields.2@)),
                None => time_fields(part) is None,
            },
        },
{
    let output = bytes::lossy_text(stderr);
    match duration_text(output.as_str()) {
        Some(part) => duration_fields(part.as_str()),
        None => None,
    }
}

/// The arguments that make FFmpeg describe a file.
pub fn probe_args(video: &str) -> (r: Vec<String>)
    ensures
        r.deep_view() == seq!["-hide_banner"@, "-i"@, video@],
{
    let mut args: Vec<String> = Vec::new();
    text::push_texts(&mut args, &["-hide_banner", "-i"]);
    text::push_text(&mut args, video);
    args
}

} // verus!
