//! Clips, edits and publishing jobs.

use vstd::prelude::*;
use vstd::string::*;

use crate::services::clock;
use crate::services::clock::Timestamp;
use crate::services::ids;

verus! {

/// Where a clip can be published.
#[derive(Debug, Clone, Copy, PartialEq, Eq, Structural)]
pub enum Platform {
    YouTube,
    Odysee,
}

/// Who can see a published clip.
#[derive(Debug, Clone, Copy, PartialEq, Eq, Structural)]
pub enum Visibility {
    Public,
    Unlisted,
    Private,
}

impl Platform {
    pub const ALL: [Self; 2] = [Self::YouTube, Self::Odysee];

    /// The platform's name.
    pub open spec fn name(self) -> Seq<char> {
        match self {
            Platform::YouTube => "YouTube"@,
            Platform::Odysee => "Odysee"@,
        }
    }

    /// The platform's name.
    pub fn label(self) -> (r: &'static str)
        ensures
            r@ == self.name(),
    {
        match self {
            Self::YouTube => "YouTube",
            Self::Odysee => "Odysee",
        }
    }

    /// The visibilities that the platform has. LBRY claims are public; nothing else is
    /// offered for Odysee.
    pub open spec fn visibilities(self) -> Seq<Visibility> {
        match self {
            Platform::YouTube => seq![
                Visibility::Public,
                Visibility::Unlisted,
                Visibility::Private,
            ],
            Platform::Odysee => seq![Visibility::Public],
        }
    }

    /// The platform can publish with `visibility`.
    pub open spec fn allows(self, visibility: Visibility) -> bool {
        self == Platform::YouTube || visibility == Visibility::Public
    }

    /// The visibilities that the platform has, in the order they are offered.
    pub fn supported_visibilities(self) -> (r: &'static [Visibility])
        ensures
            r@ == self.visibilities(),
            forall|v: Visibility| r@.contains(v) <==> self.allows(v),
    {
        match self {
            Self::YouTube => {
                let all: &'static [Visibility] = &[
                    Visibility::Public,
                    Visibility::Unlisted,
                    Visibility::Private,
                ];
                proof {
                    assert(all@ =~= self.visibilities());
                    assert forall|v: Visibility| all@.contains(v) <==> self.allows(v) by {
                        assert(all@[0] == Visibility::Public && all@[1] == Visibility::Unlisted
                            && all@[2] == Visibility::Private);
                    }
                }
                all
            },
            Self::Odysee => {
                let all: &'static [Visibility] = &[Visibility::Public];
                proof {
                    assert(all@ =~= self.visibilities());
                    assert forall|v: Visibility| all@.contains(v) <==> self.allows(v) by {
                        assert(all@[0] == Visibility::Public);
                    }
                }
                all
            },
        }
    }
}

impl Visibility {
    /// The visibility's name.
    pub open spec fn name(self) -> Seq<char> {
        match self {
            Visibility::Public => "Public"@,
            Visibility::Unlisted => "Unlisted"@,
            Visibility::Private => "Private"@,
        }
    }

    /// The visibility's name.
    pub fn label(self) -> (r: &'static str)
        ensures
            r@ == self.name(),
    {
        match self {
            Self::Public => "Public",
            Self::Unlisted => "Unlisted",
            Self::Private => "Private",
        }
    }

    /// What YouTube calls this visibility.
    pub open spec fn youtube_name(self) -> Seq<char> {
        match self {
            Visibility::Public => "public"@,
            Visibility::Unlisted => "unlisted"@,
            Visibility::Private => "private"@,
        }
    }

    /// The value of YouTube's `privacyStatus`.
    pub fn youtube_value(self) -> (r: &'static str)
        ensures
            r@ == self.youtube_name(),
    {
        match self {
            Self::Public => "public",
            Self::Unlisted => "unlisted",
            Self::Private => "private",
        }
    }
}

/// No visibility is shown to YouTube, or to the user, as another one: above all,
/// unlisted is never presented as private.
pub proof fn visibilities_are_told_apart(a: Visibility, b: Visibility)
    ensures
        a.youtube_name() == b.youtube_name() ==> a == b,
        a.name() == b.name() ==> a == b,
{
    reveal_strlit("public");
    reveal_strlit("unlisted");
    reveal_strlit("private");
    reveal_strlit("Public");
    reveal_strlit("Unlisted");
    reveal_strlit("Private");
    assert("public"@[1] == 'u' && "private"@[1] == 'r' && "unlisted"@.len() == 8
        && "public"@.len() == 6 && "private"@.len() == 7);
    assert("Public"@.len() == 6 && "Unlisted"@.len() == 8 && "Private"@.len() == 7);
}

/// A saved clip. Times are whole milliseconds, the resolution of the timestamps that
/// are handed to FFmpeg.
#[derive(Debug)]
pub struct Clip {
    pub id: u128,
    pub path: String,
    pub title: String,
    pub description: String,
    pub created_at: Timestamp,
    pub duration_millis: u64,
}

impl Clone for Clip {
    fn clone(&self) -> (r: Self)
        ensures
            r == *self,
    {
        Clip {
            id: self.id,
            path: self.path.clone(),
            title: self.title.clone(),
            description: self.description.clone(),
            created_at: self.created_at,
            duration_millis: self.duration_millis,
        }
    }
}

impl Clip {
    /// The title of a clip made at a time whose title stamp is `stamp`.
    pub open spec fn default_title(stamp: Seq<char>) -> Seq<char> {
        "Xyra clip "@ + stamp
    }

    /// A clip named after the text of its time of creation.
    pub fn stamped(
        id: u128,
        path: String,
        duration_millis: u64,
        created_at: Timestamp,
        stamp: &str,
    ) -> (r: Clip)
        ensures
            r.id == id,
            r.path == path,
            r.title@ == Clip::default_title(stamp@),
            r.description@ == Seq::<char>::empty(),
            r.created_at == created_at,
            r.duration_millis == duration_millis,
    {
        let mut title = "Xyra clip ".to_owned();
        title.append(stamp);
        Clip { id, path, title, description: String::new(), created_at, duration_millis }
    }

    /// The title is the one that the time of creation gives.
    pub open spec fn is_titled_by_time(self) -> bool {
        clock::utc_text(
            self.created_at.seconds,
            self.created_at.nanos,
            clock::TITLE_STAMP@,
        ) matches Some(stamp) && self.title@ == Clip::default_title(stamp)
    }

    /// The clip was made just now: its identifier was drawn for it, its time is what the
    /// clock gave, and it is named after that time.
    pub open spec fn is_new(self) -> bool {
        &&& ids::is_drawn(self.id)
        &&& clock::was_read(self.created_at)
        &&& self.is_titled_by_time()
        &&& self.description@ == Seq::<char>::empty()
    }

    /// A clip made just now, under a new random identifier.
    pub fn new(path: String, duration_millis: u64) -> (r: Clip)
        ensures
            r.path == path,
            r.duration_millis == duration_millis,
            r.is_new(),
    {
        let created_at = clock::now();
        let stamp = clock::format_utc(created_at, clock::TITLE_STAMP).unwrap();
        Clip::stamped(ids::random_id(), path, duration_millis, created_at, stamp.as_str())
    }
}

/// The part of a clip that an export keeps.
#[derive(Debug, Clone, Copy)]
pub struct EditProject {
    pub clip_id: u128,
    pub trim_start_millis: u64,
    pub trim_end_millis: u64,
}

impl EditProject {
    /// The edit that keeps all of `clip`.
    pub fn for_clip(clip: &Clip) -> (r: Self)
        ensures
            r.clip_id == clip.id,
            r.trim_start_millis == 0,
            r.trim_end_millis == clip.duration_millis,
    {
        Self { clip_id: clip.id, trim_start_millis: 0, trim_end_millis: clip.duration_millis }
    }

    /// What is kept does not end before it begins.
    pub open spec fn wf(self) -> bool {
        self.trim_start_millis <= self.trim_end_millis
    }

    /// Moves the beginning, no further than the end.
    pub fn set_start(&mut self, millis: u64)
        ensures
            final(self).wf(),
            *final(self) == (EditProject {
                trim_start_millis: if millis > old(self).trim_end_millis {
                    old(self).trim_end_millis
                } else {
                    millis
                },
                ..*old(self)
            }),
    {
        self.trim_start_millis = if millis > self.trim_end_millis {
            self.trim_end_millis
        } else {
            millis
        };
    }

    /// Moves the end, no further back than the beginning and no further on than the clip
    /// lasts.
    pub fn set_end(&mut self, millis: u64, duration_millis: u64)
        ensures
            final(self).wf(),
            *final(self) == (EditProject {
                trim_end_millis: if millis < old(self).trim_start_millis || duration_millis < old(
                    self,
                ).trim_start_millis {
                    old(self).trim_start_millis
                } else if millis > duration_millis {
                    duration_millis
                } else {
                    millis
                },
                ..*old(self)
            }),
    {
        self.trim_end_millis = if millis < self.trim_start_millis || duration_millis
            < self.trim_start_millis {
            self.trim_start_millis
        } else if millis > duration_millis {
            duration_millis
        } else {
            millis
        };
    }

    /// The edit of `clip`: the one at hand, unless it is of another clip.
    pub fn of_clip(current: Option<EditProject>, clip: &Clip) -> (r: Self)
        ensures
            r == match current {
                Some(project) if project.clip_id == clip.id => project,
                _ => EditProject {
                    clip_id: clip.id,
                    trim_start_millis: 0,
                    trim_end_millis: clip.duration_millis,
                },
            },
    {
        match current {
            Some(project) => {
                if project.clip_id == clip.id {
                    project
                } else {
                    Self::for_clip(clip)
                }
            },
            None => Self::for_clip(clip),
        }
    }
}

/// One destination of a publishing job.
#[derive(Debug, Clone, Copy, PartialEq, Eq, Structural)]
pub struct PublishTarget {
    pub platform: Platform,
    pub enabled: bool,
    pub visibility: Visibility,
}

impl PublishTarget {
    /// A destination that is switched off until the user enables it.
    pub fn new(platform: Platform) -> (r: Self)
        ensures
            r.platform == platform,
            !r.enabled,
            r.visibility == Visibility::Public,
    {
        Self { platform, enabled: false, visibility: Visibility::Public }
    }
}

/// How far a publishing job has come.
#[derive(Debug)]
pub enum PublishStatus {
    Queued,
    Uploading { platform: Platform, progress_percent: u32 },
    Complete,
    Failed(String),
}

impl Clone for PublishStatus {
    fn clone(&self) -> (r: Self)
        ensures
            r == *self,
    {
        match self {
            PublishStatus::Queued => PublishStatus::Queued,
            PublishStatus::Uploading { platform, progress_percent } => PublishStatus::Uploading {
                platform: *platform,
                progress_percent: *progress_percent,
            },
            PublishStatus::Complete => PublishStatus::Complete,
            PublishStatus::Failed(error) => PublishStatus::Failed(error.clone()),
        }
    }
}

/// A clip on its way to one or more platforms, with the exact destinations and
/// visibilities that were chosen for it.
#[derive(Debug)]
pub struct PublishJob {
    pub id: u128,
    pub clip_id: u128,
    pub clip_path: String,
    pub title: String,
    pub description: String,
    pub targets: Vec<PublishTarget>,
    pub created_at: Timestamp,
    pub status: PublishStatus,
}

impl Clone for PublishJob {
    fn clone(&self) -> (r: Self)
        ensures
            r.id == self.id,
            r.clip_id == self.clip_id,
            r.clip_path == self.clip_path,
            r.title == self.title,
            r.description == self.description,
            r.targets@ == self.targets@,
            r.created_at == self.created_at,
            r.status == self.status,
    {
        let targets = self.targets.clone();
        assert(targets@ =~= self.targets@);
        PublishJob {
            id: self.id,
            clip_id: self.clip_id,
            clip_path: self.clip_path.clone(),
            title: self.title.clone(),
            description: self.description.clone(),
            targets,
            created_at: self.created_at,
            status: self.status.clone(),
        }
    }
}

} // verus!
