//! Publishing: the queue of jobs, the course of one job, and what is said to the two
//! platforms.

use vstd::prelude::*;
use vstd::string::*;

use crate::config::AppConfig;
use crate::model::{Platform, PublishJob, PublishStatus, PublishTarget, Visibility};
use crate::services::ids;
use crate::services::letters;
use crate::text;

verus! {

/// Why a job was not queued.
#[derive(Debug, PartialEq, Eq)]
pub enum PublishError {
    NoDestination,
    UnsupportedVisibility(&'static str, &'static str),
}

impl PublishError {
    /// The message shown for the error.
    pub fn message(&self) -> (r: String)
        ensures
            r@ == (match *self {
                PublishError::NoDestination => "select at least one destination"@,
                PublishError::UnsupportedVisibility(platform, visibility) => platform@
                    + " does not support "@ + visibility@ + " visibility"@,
            }),
    {
        match self {
            Self::NoDestination => "select at least one destination".to_owned(),
            Self::UnsupportedVisibility(platform, visibility) => {
                let mut out = (*platform).to_owned();
                out.append(" does not support ");
                out.append(visibility);
                out.append(" visibility");
                out
            },
        }
    }
}

/// Some destination is enabled.
pub open spec fn any_enabled(targets: Seq<PublishTarget>) -> bool {
    exists|i: int| 0 <= i < targets.len() && (#[trigger] targets[i]).enabled
}

/// The destination is enabled with a visibility that its platform does not have.
pub open spec fn is_refused(target: PublishTarget) -> bool {
    target.enabled && !target.platform.allows(target.visibility)
}

/// `i` is the first destination that is refused.
pub open spec fn first_refused(targets: Seq<PublishTarget>, i: int) -> bool {
    0 <= i < targets.len() && is_refused(targets[i]) && forall|j: int|
        0 <= j < i ==> !is_refused(#[trigger] targets[j])
}

/// The job can be published: it has a destination, and every enabled destination can
/// keep what its visibility promises.
pub open spec fn is_acceptable(job: PublishJob) -> bool {
    any_enabled(job.targets@) && forall|i: int|
        0 <= i < job.targets@.len() ==> !is_refused(#[trigger] job.targets@[i])
}

/// The jobs that were accepted, in the order in which they came.
#[derive(Debug)]
pub struct PublishQueue {
    pub jobs: Vec<PublishJob>,
}

/// `i` is the first job with the identifier `id`.
pub open spec fn first_job(jobs: Seq<PublishJob>, id: u128, i: int) -> bool {
    0 <= i < jobs.len() && jobs[i].id == id && forall|j: int|
        0 <= j < i ==> (#[trigger] jobs[j]).id != id
}

/// No job has the identifier `id`.
pub open spec fn no_job(jobs: Seq<PublishJob>, id: u128) -> bool {
    forall|i: int| 0 <= i < jobs.len() ==> (#[trigger] jobs[i]).id != id
}

impl Default for PublishQueue {
    /// An empty queue.
    fn default() -> (r: Self)
        ensures
            r.jobs@ == Seq::<PublishJob>::empty(),
    {
        PublishQueue { jobs: Vec::new() }
    }
}

impl PublishQueue {
    /// Every job in the queue can be published.
    pub open spec fn wf(self) -> bool {
        forall|i: int| 0 <= i < self.jobs@.len() ==> is_acceptable(#[trigger] self.jobs@[i])
    }

    /// Appends a job that can be published. Any other is refused: for want of a
    /// destination, or for the first destination whose visibility its platform lacks.
    pub fn enqueue(&mut self, job: PublishJob) -> (r: Result<(), PublishError>)
        ensures
            old(self).wf() ==> final(self).wf(),
            match r {
                Ok(_) => is_acceptable(job) && final(self).jobs@ == old(self).jobs@.push(job),
                Err(PublishError::NoDestination) => !any_enabled(job.targets@) && final(self).jobs@
                    == old(self).jobs@,
                Err(PublishError::UnsupportedVisibility(platform, visibility)) => {
                    &&& final(self).jobs@ == old(self).jobs@
                    &&& exists|i: int| #[trigger]
                        first_refused(job.targets@, i) && platform@
                            == job.targets@[i].platform.name() && visibility@
                            == job.targets@[i].visibility.name()
                },
            },
    {
        let mut enabled = false;
        let mut i: usize = 0;
        while i < job.targets.len()
            invariant
                i <= job.targets.len(),
                enabled == any_enabled(job.targets@.take(i as int)),
            decreases job.targets.len() - i,
        {
            let ghost known = job.targets@.take(i as int);
            let ghost grown = job.targets@.take(i + 1);
            proof {
                if enabled {
                    let k = choose|k: int| 0 <= k < known.len() && (#[trigger] known[k]).enabled;
                    assert(grown[k] == known[k]);
                }
                if any_enabled(grown) && !grown[i as int].enabled {
                    let k = choose|k: int| 0 <= k < grown.len() && (#[trigger] grown[k]).enabled;
                    assert(known[k] == grown[k]);
                }
                assert(grown[i as int] == job.targets@[i as int]);
            }
            if job.targets[i].enabled {
                enabled = true;
            }
            i += 1;
        }
        assert(job.targets@.take(i as int) =~= job.targets@);
        if !enabled {
            return Err(PublishError::NoDestination);
        }
        let mut k: usize = 0;
        while k < job.targets.len()
            invariant
                k <= job.targets.len(),
                self.jobs@ == old(self).jobs@,
                forall|j: int| 0 <= j < k ==> !is_refused(#[trigger] job.targets@[j]),
            decreases job.targets.len() - k,
        {
            let target = job.targets[k];
            if target.enabled && !supports(target.platform, target.visibility) {
                assert(first_refused(job.targets@, k as int));
                return Err(
                    PublishError::UnsupportedVisibility(
                        target.platform.label(),
                        target.visibility.label(),
                    ),
                );
            }
            k += 1;
        }
        self.jobs.push(job);
        Ok(())
    }

    /// The jobs in the queue.
    pub fn jobs(&self) -> (r: &[PublishJob])
        ensures
            r@ == self.jobs@,
    {
        self.jobs.as_slice()
    }

    /// The job with the identifier `id`, to be changed in place.
    pub fn job_mut(&mut self, id: u128) -> (r: Option<&mut PublishJob>)
        ensures
            match r {
                Some(job) => exists|i: int| #[trigger]
                    first_job(old(self).jobs@, id, i) && *job == old(self).jobs@[i]
                        && final(self).jobs@ == old(self).jobs@.update(i, *final(job)),
                None => no_job(old(self).jobs@, id) && final(self).jobs@ == old(self).jobs@,
            },
    {
        let mut i: usize = 0;
        while i < self.jobs.len()
            invariant
                i <= self.jobs.len(),
                *self == *old(self),
                forall|j: int| 0 <= j < i ==> (#[trigger] self.jobs@[j]).id != id,
            decreases self.jobs.len() - i,
        {
            if self.jobs[i].id == id {
                assert(first_job(old(self).jobs@, id, i as int));
                return Some(&mut self.jobs[i]);
            }
            i += 1;
        }
        None
    }

    /// How many jobs are in the queue.
    pub fn len(&self) -> (r: usize)
        ensures
            r == self.jobs@.len(),
    {
        self.jobs.len()
    }

    /// Whether the queue is empty.
    pub fn is_empty(&self) -> (r: bool)
        ensures
            r == (self.jobs@.len() == 0),
    {
        self.jobs.len() == 0
    }
}

/// Whether a platform can publish with a visibility.
fn supports(platform: Platform, visibility: Visibility) -> (r: bool)
    ensures
        r == platform.allows(visibility),
{
    let all = platform.supported_visibilities();
    let mut i: usize = 0;
    while i < all.len()
        invariant
            i <= all.len(),
            forall|v: Visibility| all@.contains(v) <==> platform.allows(v),
            forall|j: int| 0 <= j < i ==> all@[j] != visibility,
        decreases all.len() - i,
    {
        if all[i] == visibility {
            assert(all@.contains(visibility));
            return true;
        }
        i += 1;
    }
    false
}

/// What connecting to a platform takes.
pub fn connection_help(platform: Platform) -> (r: &'static str)
    ensures
        r@ == (match platform {
            Platform::YouTube =>
                "Requires Google OAuth with the youtube.upload scope. Public uploads require an audited API project."@,
            Platform::Odysee =>
                "Publishes through the local LBRY SDK. LBRY claims are public; private and unlisted visibility are not available."@,
        }),
{
    match platform {
        Platform::YouTube =>
            "Requires Google OAuth with the youtube.upload scope. Public uploads require an audited API project.",
        Platform::Odysee =>
            "Publishes through the local LBRY SDK. LBRY claims are public; private and unlisted visibility are not available.",
    }
}

/// What a job that the queue accepts asks of Odysee is public: nobody is promised a
/// privacy that the platform does not have.
pub proof fn accepted_jobs_promise_no_false_privacy(job: PublishJob)
    requires
        is_acceptable(job),
    ensures
        forall|i: int|
            0 <= i < job.targets@.len() && (#[trigger] job.targets@[i]).enabled
                && job.targets@[i].platform == Platform::Odysee ==> job.targets@[i].visibility
                == Visibility::Public,
{
    assert forall|i: int|
        0 <= i < job.targets@.len() && (#[trigger] job.targets@[i]).enabled
            && job.targets@[i].platform == Platform::Odysee implies job.targets@[i].visibility
        == Visibility::Public by {
        assert(!is_refused(job.targets@[i]));
    }
}

/// A job to be published, with the settings in force when it was handed over.
#[derive(Debug)]
pub struct PublishTask {
    pub job: PublishJob,
    pub config: AppConfig,
}

/// What happened to a job.
#[derive(Debug)]
pub enum PublishEvent {
    Progress { job_id: u128, platform: Platform, progress_percent: u32 },
    Complete { job_id: u128, links: Vec<String> },
    Failed { job_id: u128, error: String },
}

impl PublishEvent {
    /// The job that the event is about.
    pub open spec fn about(self) -> u128 {
        match self {
            PublishEvent::Progress { job_id, .. } => job_id,
            PublishEvent::Complete { job_id, .. } => job_id,
            PublishEvent::Failed { job_id, .. } => job_id,
        }
    }

    /// The status that the event leaves the job in.
    pub open spec fn leads_to(self) -> PublishStatus {
        match self {
            PublishEvent::Progress { platform, progress_percent, .. } => PublishStatus::Uploading {
                platform,
                progress_percent,
            },
            PublishEvent::Complete { .. } => PublishStatus::Complete,
            PublishEvent::Failed { error, .. } => PublishStatus::Failed(error),
        }
    }
}

/// `after` are the jobs of `before` once `event` has been noted: the job that it is about
/// has the status that it leads to. An event about a job that is not there changes nothing.
pub open spec fn is_noted(
    before: Seq<PublishJob>,
    event: PublishEvent,
    after: Seq<PublishJob>,
) -> bool {
    &&& no_job(before, event.about()) ==> after == before
    &&& forall|i: int| #[trigger]
        first_job(before, event.about(), i) ==> after == before.update(
            i,
            (PublishJob { status: event.leads_to(), ..before[i] }),
        )
}

/// A search for a job ends: there is a first job with an identifier, or there is none.
proof fn lemma_first_job(jobs: Seq<PublishJob>, id: u128)
    ensures
        no_job(jobs, id) || exists|i: int| first_job(jobs, id, i),
    decreases jobs.len(),
{
    if jobs.len() > 0 {
        let front = jobs.drop_last();
        let last = jobs.len() - 1;
        lemma_first_job(front, id);
        if no_job(front, id) {
            assert(forall|j: int| 0 <= j < last ==> #[trigger] jobs[j] == front[j]);
            if jobs[last].id == id {
                assert(first_job(jobs, id, last));
            }
        } else {
            let i = choose|i: int| first_job(front, id, i);
            assert(forall|j: int| 0 <= j <= i ==> #[trigger] jobs[j] == front[j]);
            assert(first_job(jobs, id, i));
        }
    }
}

/// Whatever happens while jobs are uploaded, every job keeps its exact destinations and
/// visibilities, and the clip that it was made for.
pub proof fn jobs_keep_their_destinations(
    before: Seq<PublishJob>,
    event: PublishEvent,
    after: Seq<PublishJob>,
)
    requires
        is_noted(before, event, after),
    ensures
        after.len() == before.len(),
        forall|i: int|
            0 <= i < before.len() ==> {
                let job = #[trigger] after[i];
                &&& job.id == before[i].id
                &&& job.clip_id == before[i].clip_id
                &&& job.clip_path == before[i].clip_path
                &&& job.targets == before[i].targets
                &&& job.created_at == before[i].created_at
            },
{
    lemma_first_job(before, event.about());
    if !no_job(before, event.about()) {
        let i = choose|i: int| first_job(before, event.about(), i);
        assert(first_job(before, event.about(), i));
    }
}

impl PublishQueue {
    /// Takes note of what happened to a job.
    pub fn apply(&mut self, event: PublishEvent)
        ensures
            old(self).wf() ==> final(self).wf(),
            is_noted(old(self).jobs@, event, final(self).jobs@),
    {
        let (id, status) = match event {
            PublishEvent::Progress { job_id, platform, progress_percent } => (
                job_id,
                PublishStatus::Uploading { platform, progress_percent },
            ),
            PublishEvent::Complete { job_id, links: _ } => (job_id, PublishStatus::Complete),
            PublishEvent::Failed { job_id, error } => (job_id, PublishStatus::Failed(error)),
        };
        let mut i: usize = 0;
        while i < self.jobs.len()
            invariant
                i <= self.jobs.len(),
                *self == *old(self),
                id == event.about(),
                status == event.leads_to(),
                forall|j: int| 0 <= j < i ==> (#[trigger] self.jobs@[j]).id != id,
            decreases self.jobs.len() - i,
        {
            if self.jobs[i].id == id {
                assert(first_job(old(self).jobs@, id, i as int));
                self.jobs[i].status = status;
                assert(self.jobs@ =~= old(self).jobs@.update(
                    i as int,
                    (PublishJob { status, ..old(self).jobs@[i as int] }),
                ));
                return ;
            }
            i += 1;
        }
    }
}

/// How far a job has been published: the enabled destinations in order, and a link for
/// each one that is done.
#[derive(Debug)]
pub struct PublishRun {
    pub job_id: u128,
    pub targets: Vec<PublishTarget>,
    pub links: Vec<String>,
    pub stopped: bool,
}

/// The enabled destinations, in order.
pub open spec fn enabled_targets(targets: Seq<PublishTarget>) -> Seq<PublishTarget> {
    targets.filter(|target: PublishTarget| target.enabled)
}

/// What is done next for a job.
#[derive(Debug, Clone, Copy, PartialEq, Eq, Structural)]
pub enum PublishStep {
    Upload(PublishTarget),
    Done,
}

impl PublishRun {
    /// There are no more links than destinations.
    pub open spec fn wf(self) -> bool {
        self.links@.len() <= self.targets@.len()
    }

    /// The start of a job.
    pub fn new(job: &PublishJob) -> (r: Self)
        ensures
            r.wf(),
            r.job_id == job.id,
            r.targets@ == enabled_targets(job.targets@),
            r.links.deep_view() == Seq::<Seq<char>>::empty(),
            !r.stopped,
    {
        let ghost wanted = |target: PublishTarget| target.enabled;
        let mut targets: Vec<PublishTarget> = Vec::new();
        let mut i: usize = 0;
        proof {
            reveal(Seq::filter);
            assert(job.targets@.take(0) =~= Seq::empty());
        }
        while i < job.targets.len()
            invariant
                i <= job.targets.len(),
                wanted == (|target: PublishTarget| target.enabled),
                targets@ == job.targets@.take(i as int).filter(wanted),
            decreases job.targets.len() - i,
        {
            proof {
                reveal(Seq::filter);
                assert(job.targets@.take(i + 1).drop_last() =~= job.targets@.take(i as int));
            }
            if job.targets[i].enabled {
                targets.push(job.targets[i]);
            }
            i += 1;
        }
        assert(job.targets@.take(i as int) =~= job.targets@);
        let links: Vec<String> = Vec::new();
        assert(links.deep_view() =~= Seq::<Seq<char>>::empty());
        PublishRun { job_id: job.id, targets, links, stopped: false }
    }

    /// What is done next: the next destination, until one fails or all are done.
    pub fn next(&self) -> (r: PublishStep)
        requires
            self.wf(),
        ensures
            r == if !self.stopped && self.links@.len() < self.targets@.len() {
                PublishStep::Upload(self.targets@[self.links@.len() as int])
            } else {
                PublishStep::Done
            },
    {
        if !self.stopped && self.links.len() < self.targets.len() {
            PublishStep::Upload(self.targets[self.links.len()])
        } else {
            PublishStep::Done
        }
    }

    /// What is reported when a destination is begun.
    pub fn begun(&self, platform: Platform) -> (r: PublishEvent)
        ensures
            r == (PublishEvent::Progress { job_id: self.job_id, platform, progress_percent: 5 }),
    {
        PublishEvent::Progress { job_id: self.job_id, platform, progress_percent: 5 }
    }

    /// What is reported when YouTube has agreed to take the file.
    pub fn accepted(&self, platform: Platform) -> (r: PublishEvent)
        ensures
            r == (PublishEvent::Progress { job_id: self.job_id, platform, progress_percent: 20 }),
    {
        PublishEvent::Progress { job_id: self.job_id, platform, progress_percent: 20 }
    }

    /// Takes the link of the destination that was just published, and tells what to
    /// report of it; an error ends the job.
    pub fn uploaded(&mut self, platform: Platform, result: Result<String, String>) -> (r: PublishEvent)
        requires
            old(self).wf(),
            old(self).links@.len() < old(self).targets@.len(),
        ensures
            final(self).wf(),
            final(self).job_id == old(self).job_id,
            final(self).targets@ == old(self).targets@,
            match result {
                Ok(link) => {
                    &&& final(self).links@ == old(self).links@.push(link)
                    &&& final(self).stopped == old(self).stopped
                    &&& r == (PublishEvent::Progress {
                        job_id: old(self).job_id,
                        platform,
                        progress_percent: 100,
                    })
                },
                Err(error) => {
                    &&& final(self).links@ == old(self).links@
                    &&& final(self).stopped
                    &&& r == (PublishEvent::Failed { job_id: old(self).job_id, error })
                },
            },
    {
        match result {
            Ok(link) => {
                self.links.push(link);
                PublishEvent::Progress { job_id: self.job_id, platform, progress_percent: 100 }
            },
            Err(error) => {
                self.stopped = true;
                PublishEvent::Failed { job_id: self.job_id, error }
            },
        }
    }

    /// What is reported once nothing is left to do: that the job is complete, unless it
    /// has failed.
    pub fn finish(self) -> (r: Option<PublishEvent>)
        requires
            self.wf(),
        ensures
            match r {
                Some(event) => !self.stopped && self.links@.len() == self.targets@.len() && event
                    == (PublishEvent::Complete { job_id: self.job_id, links: self.links }),
                None => self.stopped || self.links@.len() < self.targets@.len(),
            },
    {
        if !self.stopped && self.links.len() == self.targets.len() {
            Some(PublishEvent::Complete { job_id: self.job_id, links: self.links })
        } else {
            None
        }
    }
}

/// A text is one of the ASCII letters and digits.
pub open spec fn is_plain(c: char) -> bool {
    'a' <= c <= 'z' || 'A' <= c <= 'Z' || '0' <= c <= '9'
}

/// Each character in lower case.
pub open spec fn lowered_chars(title: Seq<char>) -> Seq<char>
    decreases title.len(),
{
    if title.len() == 0 {
        Seq::empty()
    } else {
        lowered_chars(title.drop_last()) + letters::char_lower(title.last())
    }
}

/// Each character that is no letter or digit of ASCII replaced by `-`.
pub open spec fn dashed(chars: Seq<char>) -> Seq<char> {
    chars.map_values(
        |c: char|
            if is_plain(c) {
                c
            } else {
                '-'
            },
    )
}

/// The pieces that are not empty.
pub open spec fn filled(parts: Seq<Seq<char>>) -> Seq<Seq<char>> {
    parts.filter(|part: Seq<char>| part.len() > 0)
}

/// The runs of letters and digits in `chars`, with one `-` between each two.
pub open spec fn slug(chars: Seq<char>) -> Seq<char> {
    text::join(filled(text::split(dashed(chars), '-')), "-"@)
}

/// The name of a claim: at most 32 characters of the slug of its title, or a name of our
/// own where it has none, and the first eight digits of the job's identifier.
pub open spec fn claim_name(lowered: Seq<char>, id: nat) -> Seq<char> {
    let whole = slug(lowered);
    let short = if whole.len() > 32 {
        whole.take(32)
    } else {
        whole
    };
    (if short.len() == 0 {
        "xyra-clip"@
    } else {
        short
    }) + "-"@ + ids::hex(id, 32).take(8)
}

/// Each character in lower case.
fn lower_all(title: &str) -> (r: Vec<char>)
    ensures
        r@ == lowered_chars(title@),
{
    let chars = text::chars_of(title);
    let mut out: Vec<char> = Vec::new();
    let mut i: usize = 0;
    while i < chars.len()
        invariant
            i <= chars.len(),
            out@ == lowered_chars(chars@.take(i as int)),
        decreases chars.len() - i,
    {
        assert(chars@.take(i + 1).drop_last() =~= chars@.take(i as int));
        let mut lower = letters::lower_char(chars[i]);
        let ghost before = out@;
        let ghost more = lower@;
        out.append(&mut lower);
        assert(out@ =~= before + more);
        i += 1;
    }
    assert(chars@.take(i as int) =~= title@);
    out
}

/// The name of a claim whose title reads `lowered` in lower case.
pub fn claim_name_of(lowered: &Vec<char>, id: u128) -> (r: String)
    ensures
        r@ == claim_name(lowered@, id as nat),
{
    let mut marked = String::new();
    let mut i: usize = 0;
    while i < lowered.len()
        invariant
            i <= lowered.len(),
            marked@ == dashed(lowered@).take(i as int),
        decreases lowered.len() - i,
    {
        let c = lowered[i];
        let plain = 'a' <= c && c <= 'z' || 'A' <= c && c <= 'Z' || '0' <= c && c <= '9';
        marked.push(
            if plain {
                c
            } else {
                '-'
            },
        );
        i += 1;
        assert(dashed(lowered@).take(i as int) =~= dashed(lowered@).take(i - 1).push(
            dashed(lowered@)[i - 1],
        ));
    }
    assert(dashed(lowered@).take(i as int) =~= dashed(lowered@));
    let parts = text::pieces(marked.as_str(), '-');
    let ghost all = parts.deep_view();
    let ghost wanted = |part: Seq<char>| part.len() > 0;
    let mut words: Vec<String> = Vec::new();
    let mut k: usize = 0;
    proof {
        reveal(Seq::filter);
        assert(all.take(0) =~= Seq::empty());
        assert(words.deep_view() =~= Seq::empty());
    }
    while k < parts.len()
        invariant
            k <= parts.len(),
            all == parts.deep_view(),
            wanted == (|part: Seq<char>| part.len() > 0),
            words.deep_view() == all.take(k as int).filter(wanted),
        decreases parts.len() - k,
    {
        proof {
            reveal(Seq::filter);
            assert(all.take(k + 1).drop_last() =~= all.take(k as int));
            assert(all[k as int] == parts@[k as int]@);
        }
        if !parts[k].as_str().is_empty() {
            text::push_text(&mut words, parts[k].as_str());
        }
        k += 1;
    }
    assert(all.take(k as int) =~= all);
    let whole = text::joined(&words, "-");
    let letters = text::chars_of(whole.as_str());
    let end: usize = if letters.len() > 32 {
        32
    } else {
        letters.len()
    };
    let short = text::text_of(&letters, 0, end);
    assert(short@ =~= if slug(lowered@).len() > 32 {
        slug(lowered@).take(32)
    } else {
        slug(lowered@)
    });
    let mut name = if end == 0 {
        "xyra-clip".to_owned()
    } else {
        short
    };
    let digits = ids::simple_text(id);
    proof {
        ids::lemma_hex(id as nat, 32);
    }
    let digit_chars = text::chars_of(digits.as_str());
    let first_digits = text::text_of(&digit_chars, 0, 8);
    assert(first_digits@ =~= ids::hex(id as nat, 32).take(8));
    name.append("-");
    name.append(first_digits.as_str());
    name
}

/// The name of the claim for a job with this title.
pub fn odysee_claim_name(title: &str, id: u128) -> (r: String)
    ensures
        r@ == claim_name(lowered_chars(title@), id as nat),
{
    let lowered = lower_all(title);
    claim_name_of(&lowered, id)
}

/// A character that a claim's name may hold.
pub open spec fn is_claim_char(c: char) -> bool {
    is_plain(c) || c == '-'
}

/// Every character of the text may stand in a claim's name.
pub open spec fn is_claim_text(text: Seq<char>) -> bool {
    forall|i: int| 0 <= i < text.len() ==> is_claim_char(#[trigger] text[i])
}

/// Cutting a text keeps its characters.
proof fn lemma_split_keeps(whole: Seq<char>, sep: char)
    requires
        is_claim_text(whole),
    ensures
        forall|i: int|
            0 <= i < text::split(whole, sep).len() ==> is_claim_text(
                #[trigger] text::split(whole, sep)[i],
            ),
    decreases whole.len(),
{
    text::lemma_split_nonempty(whole, sep);
    if whole.len() > 0 {
        text::lemma_split_nonempty(whole.drop_last(), sep);
        lemma_split_keeps(whole.drop_last(), sep);
        let before = text::split(whole.drop_last(), sep);
        assert forall|i: int| 0 <= i < text::split(whole, sep).len() implies is_claim_text(
            #[trigger] text::split(whole, sep)[i],
        ) by {
            if i < before.len() - 1 {
                assert(text::split(whole, sep)[i] == before[i]);
            } else if i == before.len() - 1 {
                assert(is_claim_text(before[i]));
                assert(before.last() == before[i]);
            }
        }
    }
}

/// Joining texts keeps their characters.
proof fn lemma_join_keeps(parts: Seq<Seq<char>>)
    requires
        forall|i: int| 0 <= i < parts.len() ==> is_claim_text(#[trigger] parts[i]),
    ensures
        is_claim_text(text::join(parts, "-"@)),
    decreases parts.len(),
{
    reveal_strlit("-");
    if parts.len() > 1 {
        assert forall|i: int| 0 <= i < parts.drop_last().len() implies is_claim_text(
            #[trigger] parts.drop_last()[i],
        ) by {
            assert(parts.drop_last()[i] == parts[i]);
        }
        lemma_join_keeps(parts.drop_last());
        assert(is_claim_text(parts[parts.len() - 1]));
    } else if parts.len() == 1 {
        assert(is_claim_text(parts[0]));
    }
}

/// The pieces that are kept are among all pieces.
proof fn lemma_filled_keeps(parts: Seq<Seq<char>>)
    requires
        forall|i: int| 0 <= i < parts.len() ==> is_claim_text(#[trigger] parts[i]),
    ensures
        forall|i: int| 0 <= i < filled(parts).len() ==> is_claim_text(#[trigger] filled(parts)[i]),
    decreases parts.len(),
{
    reveal(Seq::filter);
    if parts.len() > 0 {
        let front = parts.drop_last();
        assert forall|i: int| 0 <= i < front.len() implies is_claim_text(#[trigger] front[i]) by {
            assert(front[i] == parts[i]);
        }
        lemma_filled_keeps(front);
        assert(is_claim_text(parts[parts.len() - 1]));
        assert forall|i: int| 0 <= i < filled(parts).len() implies is_claim_text(
            #[trigger] filled(parts)[i],
        ) by {
            if i < filled(front).len() {
                assert(filled(parts)[i] == filled(front)[i]);
            }
        }
    }
}

/// The text neither begins with `-` nor has two of them in a row.
pub open spec fn is_tidy(text: Seq<char>) -> bool {
    &&& text.len() > 0 ==> text[0] != '-'
    &&& forall|i: int| 0 <= i < text.len() - 1 && #[trigger] text[i] == '-' ==> text[i + 1] != '-'
}

/// What lies between the cuts holds no separator.
proof fn lemma_split_parts(whole: Seq<char>, sep: char)
    ensures
        forall|i: int|
            0 <= i < text::split(whole, sep).len() ==> !(#[trigger] text::split(
                whole,
                sep,
            )[i]).contains(sep),
    decreases whole.len(),
{
    text::lemma_split_nonempty(whole, sep);
    if whole.len() > 0 {
        let before = text::split(whole.drop_last(), sep);
        text::lemma_split_nonempty(whole.drop_last(), sep);
        lemma_split_parts(whole.drop_last(), sep);
        assert forall|i: int| 0 <= i < text::split(whole, sep).len() implies !(
        #[trigger] text::split(whole, sep)[i]).contains(sep) by {
            if i < before.len() - 1 {
                assert(text::split(whole, sep)[i] == before[i]);
            } else if i == before.len() - 1 {
                assert(!before[i].contains(sep));
                assert(before.last() == before[i]);
                if whole.last() != sep {
                    let part = text::split(whole, sep)[i];
                    assert(part == before[i].push(whole.last()));
                    assert forall|k: int| 0 <= k < part.len() implies part[k] != sep by {
                        if k < before[i].len() {
                            assert(part[k] == before[i][k]);
                        }
                    }
                }
            }
        }
    }
}

/// A word: not empty, and without `-`.
pub open spec fn is_word(part: Seq<char>) -> bool {
    part.len() > 0 && !part.contains('-')
}

/// The pieces that are kept are words.
proof fn lemma_filled_are_words(parts: Seq<Seq<char>>)
    requires
        forall|i: int| 0 <= i < parts.len() ==> !(#[trigger] parts[i]).contains('-'),
    ensures
        forall|i: int| 0 <= i < filled(parts).len() ==> is_word(#[trigger] filled(parts)[i]),
    decreases parts.len(),
{
    reveal(Seq::filter);
    if parts.len() > 0 {
        let front = parts.drop_last();
        assert forall|i: int| 0 <= i < front.len() implies !(#[trigger] front[i]).contains('-') by {
            assert(front[i] == parts[i]);
        }
        lemma_filled_are_words(front);
        assert(!parts[parts.len() - 1].contains('-'));
        assert forall|i: int| 0 <= i < filled(parts).len() implies is_word(
            #[trigger] filled(parts)[i],
        ) by {
            if i < filled(front).len() {
                assert(filled(parts)[i] == filled(front)[i]);
            }
        }
    }
}

/// Words joined by `-` are tidy, and do not end with one.
proof fn lemma_join_is_tidy(parts: Seq<Seq<char>>)
    requires
        forall|i: int| 0 <= i < parts.len() ==> is_word(#[trigger] parts[i]),
    ensures
        is_tidy(text::join(parts, "-"@)),
        parts.len() > 0 ==> text::join(parts, "-"@).len() > 0 && text::join(parts, "-"@).last()
            != '-',
    decreases parts.len(),
{
    reveal_strlit("-");
    let whole = text::join(parts, "-"@);
    if parts.len() > 0 {
        let last = parts[parts.len() - 1];
        assert(is_word(last));
        assert forall|k: int| 0 <= k < last.len() implies last[k] != '-' by {
            assert(last.contains(last[k]));
        }
        if parts.len() > 1 {
            let front = parts.drop_last();
            assert forall|i: int| 0 <= i < front.len() implies is_word(#[trigger] front[i]) by {
                assert(front[i] == parts[i]);
            }
            lemma_join_is_tidy(front);
            let head = text::join(front, "-"@);
            assert(whole =~= head.push('-') + last);
            assert forall|i: int|
                0 <= i < whole.len() - 1 && #[trigger] whole[i] == '-' implies whole[i + 1]
                != '-' by {
                if i + 1 < head.len() {
                    assert(head[i] == '-' && whole[i + 1] == head[i + 1]);
                } else if i + 1 == head.len() {
                    assert(head.last() == whole[i]);
                } else if i == head.len() {
                    assert(whole[i + 1] == last[0]);
                } else {
                    assert(whole[i] == last[i - head.len() - 1]);
                }
            }
            assert(whole.last() == last[last.len() - 1]);
            assert(whole[0] == head[0]);
        } else {
            assert(whole =~= last);
        }
    }
}

/// Whatever a title holds, its slug neither begins nor ends with `-`, and has no two of
/// them in a row.
pub proof fn slugs_are_tidy(lowered: Seq<char>)
    ensures
        is_tidy(slug(lowered)),
        slug(lowered).len() > 0 ==> slug(lowered).last() != '-',
{
    lemma_split_parts(dashed(lowered), '-');
    lemma_filled_are_words(text::split(dashed(lowered), '-'));
    lemma_join_is_tidy(filled(text::split(dashed(lowered), '-')));
}

/// Whatever a title holds, the name of its claim is made of ASCII letters, digits and
/// `-`, has between 10 and 41 characters, and ends with `-` and the first eight digits of
/// the job's identifier. What stands before these does not begin with `-` and has no two
/// of them in a row.
pub proof fn claim_names_are_valid(lowered: Seq<char>, id: nat)
    ensures
        is_claim_text(claim_name(lowered, id)),
        10 <= claim_name(lowered, id).len() <= 41,
        claim_name(lowered, id)[claim_name(lowered, id).len() - 9] == '-',
        claim_name(lowered, id).skip(claim_name(lowered, id).len() - 8) == ids::hex(id, 32).take(8),
        is_tidy(claim_name(lowered, id).take(claim_name(lowered, id).len() - 9)),
{
    reveal_strlit("-");
    reveal_strlit("xyra-clip");
    let name = claim_name(lowered, id);
    let digits = ids::hex(id, 32).take(8);
    ids::lemma_hex(id, 32);
    assert(is_claim_text(dashed(lowered)));
    lemma_split_keeps(dashed(lowered), '-');
    lemma_filled_keeps(text::split(dashed(lowered), '-'));
    lemma_join_keeps(filled(text::split(dashed(lowered), '-')));
    assert(is_claim_text(slug(lowered)));
    let whole = slug(lowered);
    let short = if whole.len() > 32 {
        whole.take(32)
    } else {
        whole
    };
    let front = if short.len() == 0 {
        "xyra-clip"@
    } else {
        short
    };
    assert(name == front + "-"@ + digits);
    assert("xyra-clip"@.len() == 9);
    assert forall|i: int| 0 <= i < "xyra-clip"@.len() implies is_claim_char(
        #[trigger] "xyra-clip"@[i],
    ) by {
        assert("xyra-clip"@[0] == 'x' && "xyra-clip"@[1] == 'y' && "xyra-clip"@[2] == 'r'
            && "xyra-clip"@[3] == 'a' && "xyra-clip"@[4] == '-' && "xyra-clip"@[5] == 'c'
            && "xyra-clip"@[6] == 'l' && "xyra-clip"@[7] == 'i' && "xyra-clip"@[8] == 'p');
    }
    assert forall|i: int| 0 <= i < front.len() implies is_claim_char(#[trigger] front[i]) by {
        if short.len() > 0 {
            assert(front[i] == whole[i]);
        }
    }
    assert forall|i: int| 0 <= i < digits.len() implies is_claim_char(#[trigger] digits[i]) by {
        assert(digits[i] == ids::hex(id, 32)[i]);
    }
    assert forall|i: int| 0 <= i < name.len() implies is_claim_char(#[trigger] name[i]) by {
        if i < front.len() {
            assert(name[i] == front[i]);
        } else if i > front.len() {
            assert(name[i] == digits[i - front.len() - 1]);
        }
    }
    assert(name.skip(name.len() - 8) =~= digits);
    slugs_are_tidy(lowered);
    assert(name.take(name.len() - 9) =~= front);
    assert(is_tidy(front)) by {
        if short.len() > 0 {
            assert forall|i: int|
                0 <= i < front.len() - 1 && #[trigger] front[i] == '-' implies front[i + 1]
                != '-' by {
                assert(whole[i] == '-' && whole[i + 1] == front[i + 1]);
            }
        } else {
            assert forall|i: int|
                0 <= i < front.len() - 1 && #[trigger] front[i] == '-' implies front[i + 1]
                != '-' by {
                assert("xyra-clip"@[0] == 'x' && "xyra-clip"@[1] == 'y' && "xyra-clip"@[2] == 'r'
                    && "xyra-clip"@[3] == 'a' && "xyra-clip"@[4] == '-' && "xyra-clip"@[5] == 'c'
                    && "xyra-clip"@[6] == 'l' && "xyra-clip"@[7] == 'i' && "xyra-clip"@[8] == 'p');
            }
        }
    }
}

} // verus!
