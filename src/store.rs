//! The job record store: pipelines, steps and video metadata. `JobLog` keeps
//! them in memory with the store's rules (every step belongs to a recorded
//! pipeline, identifiers are unique, a step is replaced whole by identifier, and
//! a video recorded twice is recorded once); a durable backend reports its write
//! outcomes to `video_insert_result` to apply the same rule for videos.
use vstd::prelude::*;
use crate::model::{Pipeline, Step, StepStatus, YoutubeVideo};

verus! {

/// Why a write to the store was refused.
#[derive(Clone, Copy, Debug, PartialEq, Eq, Structural)]
pub enum StoreError {
    /// A record with this identifier already exists.
    DuplicateKey,
    /// The pipeline the record refers to was never recorded.
    UnknownPipeline,
    /// No step with this identifier was recorded.
    UnknownStep,
    /// The backend failed to write.
    Backend,
}

/// How a durable backend's insert ended.
#[derive(Clone, Copy, Debug, PartialEq, Eq, Structural)]
pub enum WriteOutcome {
    Written,
    /// The natural key is already present.
    UniqueViolation,
    Failed,
}

/// The result of inserting video metadata: a duplicate key means the video is
/// already recorded, which is success.
pub fn video_insert_result(outcome: WriteOutcome) -> (r: Result<(), StoreError>)
    ensures
        r is Ok <==> outcome != WriteOutcome::Failed,
        r is Err ==> r == Err::<(), StoreError>(StoreError::Backend),
{
    match outcome {
        WriteOutcome::Written => Ok(()),
        WriteOutcome::UniqueViolation => Ok(()),
        WriteOutcome::Failed => Err(StoreError::Backend),
    }
}

pub open spec fn has_pipeline(ps: Seq<Pipeline>, id: u128) -> bool {
    exists|i: int| 0 <= i < ps.len() && #[trigger] ps[i].id == id
}

pub open spec fn has_step(steps: Seq<Step>, id: u128) -> bool {
    exists|i: int| 0 <= i < steps.len() && #[trigger] steps[i].id == id
}

pub open spec fn has_video(videos: Seq<YoutubeVideo>, youtube_id: Seq<char>) -> bool {
    exists|i: int| 0 <= i < videos.len() && #[trigger] videos[i].youtube_id@ == youtube_id
}

pub open spec fn pipeline_ids_unique(ps: Seq<Pipeline>) -> bool {
    forall|i: int, j: int| 0 <= i < ps.len() && 0 <= j < ps.len() && #[trigger] ps[i].id == #[trigger] ps[j].id ==> i == j
}

pub open spec fn step_ids_unique(steps: Seq<Step>) -> bool {
    forall|i: int, j: int|
        0 <= i < steps.len() && 0 <= j < steps.len() && #[trigger] steps[i].id == #[trigger] steps[j].id ==> i == j
}

pub open spec fn video_ids_unique(videos: Seq<YoutubeVideo>) -> bool {
    forall|i: int, j: int|
        0 <= i < videos.len() && 0 <= j < videos.len() && #[trigger] videos[i].youtube_id@
            == #[trigger] videos[j].youtube_id@ ==> i == j
}

/// The videos after recording `v`: unchanged if its source identifier is
/// already there, `v` appended otherwise.
pub open spec fn video_insert_spec(videos: Seq<YoutubeVideo>, v: YoutubeVideo) -> Seq<YoutubeVideo> {
    if has_video(videos, v.youtube_id@) {
        videos
    } else {
        videos.push(v)
    }
}

/// The steps after replacing the one with `s`'s identifier by `s`.
pub open spec fn step_replace_spec(steps: Seq<Step>, s: Step) -> Seq<Step> {
    steps.map_values(|t: Step| if t.id == s.id { s } else { t })
}

/// The pipelines after replacing the one with `p`'s identifier by `p`.
pub open spec fn pipeline_replace_spec(ps: Seq<Pipeline>, p: Pipeline) -> Seq<Pipeline> {
    ps.map_values(|t: Pipeline| if t.id == p.id { p } else { t })
}

/// Recording the same video twice never fails and leaves exactly one record
/// reachable by its source identifier: a second insert changes nothing.
pub proof fn lemma_video_insert_idempotent(videos: Seq<YoutubeVideo>, v: YoutubeVideo)
    requires
        video_ids_unique(videos),
    ensures
        video_insert_spec(video_insert_spec(videos, v), v) == video_insert_spec(videos, v),
        video_ids_unique(video_insert_spec(videos, v)),
        exists|i: int|
            0 <= i < video_insert_spec(videos, v).len() && #[trigger] video_insert_spec(videos, v)[i].youtube_id@
                == v.youtube_id@ && forall|j: int|
                0 <= j < video_insert_spec(videos, v).len() && #[trigger] video_insert_spec(videos, v)[j].youtube_id@
                    == v.youtube_id@ ==> j == i,
{
    let once = video_insert_spec(videos, v);
    if has_video(videos, v.youtube_id@) {
        let i = choose|i: int| 0 <= i < videos.len() && #[trigger] videos[i].youtube_id@ == v.youtube_id@;
        assert(once[i].youtube_id@ == v.youtube_id@);
    } else {
        let i = videos.len() as int;
        assert(once[i].youtube_id@ == v.youtube_id@);
        assert(has_video(once, v.youtube_id@));
        assert forall|j: int| 0 <= j < once.len() && #[trigger] once[j].youtube_id@ == v.youtube_id@ implies j == i by {
            if j < i {
                assert(videos[j].youtube_id@ == v.youtube_id@);
            }
        }
        assert forall|a: int, b: int|
            0 <= a < once.len() && 0 <= b < once.len() && #[trigger] once[a].youtube_id@
                == #[trigger] once[b].youtube_id@ implies a == b by {
            if a < i && b < i {
                assert(videos[a].youtube_id@ == videos[b].youtube_id@);
            } else if a < i {
                assert(videos[a].youtube_id@ == v.youtube_id@);
            } else if b < i {
                assert(videos[b].youtube_id@ == v.youtube_id@);
            }
        }
    }
}

/// An in-memory job record store.
pub struct JobLog {
    pub pipelines: Vec<Pipeline>,
    pub steps: Vec<Step>,
    pub videos: Vec<YoutubeVideo>,
}

fn find_pipeline(ps: &Vec<Pipeline>, id: u128) -> (r: Option<usize>)
    ensures
        match r {
            Some(i) => i < ps@.len() && ps@[i as int].id == id,
            None => !has_pipeline(ps@, id),
        },
{
    let mut i: usize = 0;
    while i < ps.len()
        invariant
            i <= ps@.len(),
            forall|j: int| 0 <= j < i ==> #[trigger] ps@[j].id != id,
        decreases ps@.len() - i,
    {
        if ps[i].id == id {
            return Some(i);
        }
        i = i + 1;
    }
    None
}

fn find_step(steps: &Vec<Step>, id: u128) -> (r: Option<usize>)
    ensures
        match r {
            Some(i) => i < steps@.len() && steps@[i as int].id == id,
            None => !has_step(steps@, id),
        },
{
    let mut i: usize = 0;
    while i < steps.len()
        invariant
            i <= steps@.len(),
            forall|j: int| 0 <= j < i ==> #[trigger] steps@[j].id != id,
        decreases steps@.len() - i,
    {
        if steps[i].id == id {
            return Some(i);
        }
        i = i + 1;
    }
    None
}

fn find_video(videos: &Vec<YoutubeVideo>, youtube_id: &String) -> (r: bool)
    ensures
        r == has_video(videos@, youtube_id@),
{
    let mut i: usize = 0;
    while i < videos.len()
        invariant
            i <= videos@.len(),
            forall|j: int| 0 <= j < i ==> #[trigger] videos@[j].youtube_id@ != youtube_id@,
        decreases videos@.len() - i,
    {
        if videos[i].youtube_id == *youtube_id {
            return true;
        }
        i = i + 1;
    }
    false
}

impl JobLog {
    /// Identifiers are unique within each table, and every step belongs to a
    /// recorded pipeline.
    pub open spec fn wf(&self) -> bool {
        &&& pipeline_ids_unique(self.pipelines@)
        &&& step_ids_unique(self.steps@)
        &&& video_ids_unique(self.videos@)
        &&& forall|i: int| 0 <= i < self.steps@.len() ==> has_pipeline(self.pipelines@, #[trigger] self.steps@[i].pipeline_id)
    }

    /// An empty store.
    pub fn new() -> (l: JobLog)
        ensures
            l.wf(),
            l.pipelines@.len() == 0,
            l.steps@.len() == 0,
            l.videos@.len() == 0,
    {
        JobLog { pipelines: Vec::new(), steps: Vec::new(), videos: Vec::new() }
    }

    /// Records a new pipeline, which starts Queued and unfinished; refused if
    /// its identifier is taken.
    pub fn insert_pipeline(&mut self, p: Pipeline) -> (r: Result<(), StoreError>)
        requires
            old(self).wf(),
            p.wf(),
            p.status == StepStatus::Queued,
        ensures
            final(self).wf(),
            final(self).steps == old(self).steps,
            final(self).videos == old(self).videos,
            has_pipeline(old(self).pipelines@, p.id) ==> r == Err::<(), StoreError>(StoreError::DuplicateKey)
                && final(self).pipelines == old(self).pipelines,
            !has_pipeline(old(self).pipelines@, p.id) ==> r is Ok && final(self).pipelines@ == old(self).pipelines@.push(p),
    {
        if find_pipeline(&self.pipelines, p.id).is_some() {
            return Err(StoreError::DuplicateKey);
        }
        let ghost old_ps = self.pipelines@;
        self.pipelines.push(p);
        proof {
            assert forall|i: int| 0 <= i < self.steps@.len() implies has_pipeline(
                self.pipelines@,
                #[trigger] self.steps@[i].pipeline_id,
            ) by {
                let k = choose|k: int| 0 <= k < old_ps.len() && #[trigger] old_ps[k].id == self.steps@[i].pipeline_id;
                assert(self.pipelines@[k].id == self.steps@[i].pipeline_id);
            }
            assert forall|a: int, b: int|
                0 <= a < self.pipelines@.len() && 0 <= b < self.pipelines@.len() && #[trigger] self.pipelines@[a].id
                    == #[trigger] self.pipelines@[b].id implies a == b by {
                if a < old_ps.len() && b == old_ps.len() {
                    assert(old_ps[a].id == p.id);
                } else if b < old_ps.len() && a == old_ps.len() {
                    assert(old_ps[b].id == p.id);
                }
            }
        }
        Ok(())
    }

    /// Replaces the pipeline with `p`'s identifier by `p`; refused if none.
    pub fn update_pipeline(&mut self, p: Pipeline) -> (r: Result<(), StoreError>)
        requires
            old(self).wf(),
        ensures
            final(self).wf(),
            final(self).steps == old(self).steps,
            final(self).videos == old(self).videos,
            has_pipeline(old(self).pipelines@, p.id) ==> r is Ok && final(self).pipelines@ == pipeline_replace_spec(
                old(self).pipelines@,
                p,
            ),
            !has_pipeline(old(self).pipelines@, p.id) ==> r == Err::<(), StoreError>(StoreError::UnknownPipeline)
                && final(self).pipelines == old(self).pipelines,
    {
        match find_pipeline(&self.pipelines, p.id) {
            None => Err(StoreError::UnknownPipeline),
            Some(i) => {
                let ghost old_ps = self.pipelines@;
                let id = p.id;
                self.pipelines.set(i, p);
                proof {
                    assert(self.pipelines@ =~= pipeline_replace_spec(old_ps, self.pipelines@[i as int]));
                    assert forall|k: int| 0 <= k < old_ps.len() implies #[trigger] self.pipelines@[k].id == old_ps[k].id by {}
                    assert forall|s: int| 0 <= s < self.steps@.len() implies has_pipeline(
                        self.pipelines@,
                        #[trigger] self.steps@[s].pipeline_id,
                    ) by {
                        let k = choose|k: int| 0 <= k < old_ps.len() && #[trigger] old_ps[k].id == self.steps@[s].pipeline_id;
                        assert(self.pipelines@[k].id == self.steps@[s].pipeline_id);
                    }
                    assert forall|a: int, b: int|
                        0 <= a < self.pipelines@.len() && 0 <= b < self.pipelines@.len() && #[trigger] self.pipelines@[a].id
                            == #[trigger] self.pipelines@[b].id implies a == b by {
                        assert(old_ps[a].id == self.pipelines@[a].id);
                        assert(old_ps[b].id == self.pipelines@[b].id);
                    }
                }
                Ok(())
            },
        }
    }

    /// Records a new step, which starts Queued and unfinished; refused if its
    /// pipeline is unknown or its identifier is taken.
    pub fn insert_step(&mut self, s: Step) -> (r: Result<(), StoreError>)
        requires
            old(self).wf(),
            s.wf(),
            s.status == StepStatus::Queued,
        ensures
            final(self).wf(),
            final(self).pipelines == old(self).pipelines,
            final(self).videos == old(self).videos,
            !has_pipeline(old(self).pipelines@, s.pipeline_id) ==> r == Err::<(), StoreError>(StoreError::UnknownPipeline),
            has_pipeline(old(self).pipelines@, s.pipeline_id) && has_step(old(self).steps@, s.id) ==> r == Err::<
                (),
                StoreError,
            >(StoreError::DuplicateKey),
            r is Err ==> final(self).steps == old(self).steps,
            has_pipeline(old(self).pipelines@, s.pipeline_id) && !has_step(old(self).steps@, s.id) ==> r is Ok
                && final(self).steps@ == old(self).steps@.push(s),
    {
        if find_pipeline(&self.pipelines, s.pipeline_id).is_none() {
            return Err(StoreError::UnknownPipeline);
        }
        if find_step(&self.steps, s.id).is_some() {
            return Err(StoreError::DuplicateKey);
        }
        let ghost old_steps = self.steps@;
        let ghost sid = s.id;
        self.steps.push(s);
        proof {
            assert forall|a: int, b: int|
                0 <= a < self.steps@.len() && 0 <= b < self.steps@.len() && #[trigger] self.steps@[a].id
                    == #[trigger] self.steps@[b].id implies a == b by {
                if a < old_steps.len() && b == old_steps.len() {
                    assert(old_steps[a].id == sid);
                } else if b < old_steps.len() && a == old_steps.len() {
                    assert(old_steps[b].id == sid);
                }
            }
            assert forall|i: int| 0 <= i < self.steps@.len() implies has_pipeline(
                self.pipelines@,
                #[trigger] self.steps@[i].pipeline_id,
            ) by {
                if i < old_steps.len() {
                    assert(self.steps@[i] == old_steps[i]);
                }
            }
        }
        Ok(())
    }

    /// Replaces the step with `s`'s identifier by `s` (a full-row replace);
    /// refused if no such step was recorded or its pipeline is unknown.
    pub fn update_step(&mut self, s: Step) -> (r: Result<(), StoreError>)
        requires
            old(self).wf(),
        ensures
            final(self).wf(),
            final(self).pipelines == old(self).pipelines,
            final(self).videos == old(self).videos,
            !has_step(old(self).steps@, s.id) ==> r == Err::<(), StoreError>(StoreError::UnknownStep),
            has_step(old(self).steps@, s.id) && !has_pipeline(old(self).pipelines@, s.pipeline_id) ==> r == Err::<
                (),
                StoreError,
            >(StoreError::UnknownPipeline),
            r is Err ==> final(self).steps == old(self).steps,
            has_step(old(self).steps@, s.id) && has_pipeline(old(self).pipelines@, s.pipeline_id) ==> r is Ok
                && final(self).steps@ == step_replace_spec(old(self).steps@, s),
    {
        let i = match find_step(&self.steps, s.id) {
            None => return Err(StoreError::UnknownStep),
            Some(i) => i,
        };
        if find_pipeline(&self.pipelines, s.pipeline_id).is_none() {
            return Err(StoreError::UnknownPipeline);
        }
        let ghost old_steps = self.steps@;
        let ghost new_step = s;
        self.steps.set(i, s);
        proof {
            assert forall|k: int| 0 <= k < old_steps.len() implies #[trigger] self.steps@[k].id == old_steps[k].id by {}
            assert(self.steps@ =~= step_replace_spec(old_steps, new_step)) by {
                assert forall|k: int| 0 <= k < old_steps.len() implies #[trigger] self.steps@[k] == (if old_steps[k].id
                    == new_step.id { new_step } else { old_steps[k] }) by {
                    if k != i && old_steps[k].id == new_step.id {
                        assert(old_steps[k].id == old_steps[i as int].id);
                    }
                }
            }
            assert forall|a: int, b: int|
                0 <= a < self.steps@.len() && 0 <= b < self.steps@.len() && #[trigger] self.steps@[a].id
                    == #[trigger] self.steps@[b].id implies a == b by {
                assert(old_steps[a].id == self.steps@[a].id);
                assert(old_steps[b].id == self.steps@[b].id);
            }
            assert forall|k: int| 0 <= k < self.steps@.len() implies has_pipeline(
                self.pipelines@,
                #[trigger] self.steps@[k].pipeline_id,
            ) by {
                if k != i {
                    assert(self.steps@[k] == old_steps[k]);
                }
            }
        }
        Ok(())
    }

    /// Records a video's metadata unless a record with the same source
    /// identifier exists; both count as success.
    pub fn insert_video(&mut self, v: YoutubeVideo) -> (r: Result<(), StoreError>)
        requires
            old(self).wf(),
        ensures
            final(self).wf(),
            r is Ok,
            final(self).pipelines == old(self).pipelines,
            final(self).steps == old(self).steps,
            final(self).videos@ == video_insert_spec(old(self).videos@, v),
    {
        proof {
            lemma_video_insert_idempotent(self.videos@, v);
        }
        if find_video(&self.videos, &v.youtube_id) {
            return Ok(());
        }
        self.videos.push(v);
        Ok(())
    }
}

} // verus!
