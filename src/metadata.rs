//! The metadata stage: the channel's video identifiers are split into batches
//! of the catalog's batch limit; for each batch one Queued step per video is
//! recorded, the catalog is asked once for the whole batch, each returned video
//! is recorded (idempotently), and the batch's steps are completed.
use vstd::prelude::*;
use crate::catalog::{concat_pages, Video};
use crate::jobs::{video_arg_spec, video_step_arg};
use crate::model::{new_record_id, Step, StepStatus, YoutubeVideo};

verus! {

/// Most videos the catalog describes in one request.
pub const VIDEO_INFO_BATCH_SIZE: usize = 50;

/// Why a batch of metadata could not be handled.
#[derive(Clone, Copy, Debug, PartialEq, Eq, Structural)]
pub enum MetadataError {
    /// A batch is larger than the catalog accepts.
    BadBatchSize,
    /// A video is longer than `u32::MAX` seconds.
    DurationTooLong,
}

/// `ids` split into consecutive batches of `size`, the last one possibly shorter.
pub open spec fn batches_of(ids: Seq<String>, size: nat) -> Seq<Seq<String>>
    recommends
        size > 0,
    decreases ids.len(),
{
    if ids.len() == 0 || size == 0 {
        Seq::empty()
    } else if ids.len() <= size {
        seq![ids]
    } else {
        seq![ids.take(size as int)] + batches_of(ids.skip(size as int), size)
    }
}

proof fn lemma_concat_prepend(first: Seq<String>, rest: Seq<Seq<String>>)
    ensures
        concat_pages(seq![first] + rest) == first + concat_pages(rest),
    decreases rest.len(),
{
    let all = seq![first] + rest;
    assert(all.len() > 0);
    assert(concat_pages(all) == concat_pages(all.drop_last()) + all.last());
    if rest.len() == 0 {
        assert(all.drop_last() =~= Seq::<Seq<String>>::empty());
        assert(all.last() == first);
        assert(concat_pages(all.drop_last()) == Seq::<String>::empty());
        assert(concat_pages(rest) == Seq::<String>::empty());
        assert(Seq::<String>::empty() + first =~= first);
        assert(first + Seq::<String>::empty() =~= first);
    } else {
        assert(all.drop_last() =~= seq![first] + rest.drop_last());
        assert(all.last() == rest.last());
        lemma_concat_prepend(first, rest.drop_last());
        assert(concat_pages(rest) == concat_pages(rest.drop_last()) + rest.last());
        assert(first + concat_pages(rest.drop_last()) + rest.last() =~= first + (concat_pages(rest.drop_last())
            + rest.last()));
    }
}

/// The batches, concatenated, give back the list.
pub proof fn lemma_batches_concat(ids: Seq<String>, size: nat)
    requires
        size > 0,
    ensures
        concat_pages(batches_of(ids, size)) == ids,
        forall|i: int|
            0 <= i < batches_of(ids, size).len() ==> 0 < #[trigger] batches_of(ids, size)[i].len() <= size,
    decreases ids.len(),
{
    if ids.len() == 0 {
        assert(ids =~= Seq::<String>::empty());
    } else if ids.len() <= size {
        let one = seq![ids];
        assert(batches_of(ids, size) == one);
        assert(one.drop_last() =~= Seq::<Seq<String>>::empty());
        assert(one.last() == ids);
        assert(concat_pages(one.drop_last()) == Seq::<String>::empty());
        assert(concat_pages(one) == concat_pages(one.drop_last()) + one.last());
        assert(Seq::<String>::empty() + ids =~= ids);
    } else {
        let rest = ids.skip(size as int);
        lemma_batches_concat(rest, size);
        lemma_concat_prepend(ids.take(size as int), batches_of(rest, size));
        assert(ids.take(size as int) + rest =~= ids);
        let b = batches_of(ids, size);
        assert forall|i: int| 0 <= i < b.len() implies 0 < #[trigger] b[i].len() <= size by {
            if i > 0 {
                assert(b == seq![ids.take(size as int)] + batches_of(rest, size));
                assert(b[i] == batches_of(rest, size)[i - 1]);
            }
        }
    }
}

fn slice_to_vec(ids: &Vec<String>, lo: usize, hi: usize) -> (r: Vec<String>)
    requires
        lo <= hi <= ids@.len(),
    ensures
        r@ == ids@.subrange(lo as int, hi as int),
{
    let mut r: Vec<String> = Vec::new();
    let mut i: usize = lo;
    while i < hi
        invariant
            lo <= i <= hi <= ids@.len(),
            r@ == ids@.subrange(lo as int, i as int),
        decreases hi - i,
    {
        r.push(ids[i].clone());
        i = i + 1;
        assert(r@ =~= ids@.subrange(lo as int, i as int));
    }
    r
}

/// The batches in which the stage asks the catalog about `ids`, in order.
pub fn metadata_batches(ids: &Vec<String>, size: usize) -> (r: Vec<Vec<String>>)
    requires
        size > 0,
    ensures
        r@.map_values(|b: Vec<String>| b@) == batches_of(ids@, size as nat),
{
    let mut r: Vec<Vec<String>> = Vec::new();
    let mut lo: usize = 0;
    let n = ids.len();
    assert(ids@.skip(0) =~= ids@);
    assert(r@.map_values(|b: Vec<String>| b@) + batches_of(ids@, size as nat) =~= batches_of(ids@, size as nat));
    while lo < n
        invariant
            n == ids@.len(),
            lo <= n,
            size > 0,
            r@.map_values(|b: Vec<String>| b@) + batches_of(ids@.skip(lo as int), size as nat) == batches_of(
                ids@,
                size as nat,
            ),
        decreases n - lo,
    {
        let ghost rest = ids@.skip(lo as int);
        let hi = if n - lo <= size { n } else { lo + size };
        let batch = slice_to_vec(ids, lo, hi);
        proof {
            if n - lo <= size {
                assert(batch@ =~= rest);
                assert(rest.skip(rest.len() as int) =~= Seq::<String>::empty());
                assert(ids@.skip(hi as int) =~= Seq::<String>::empty());
            } else {
                assert(batch@ =~= rest.take(size as int));
                assert(rest.skip(size as int) =~= ids@.skip(hi as int));
            }
            assert(batches_of(rest, size as nat) =~= seq![batch@] + batches_of(ids@.skip(hi as int), size as nat));
        }
        let ghost before = r@;
        r.push(batch);
        proof {
            assert(r@.map_values(|b: Vec<String>| b@) =~= before.map_values(|b: Vec<String>| b@).push(batch@));
            assert(r@.map_values(|b: Vec<String>| b@) + batches_of(ids@.skip(hi as int), size as nat)
                =~= before.map_values(|b: Vec<String>| b@) + batches_of(rest, size as nat));
        }
        lo = hi;
    }
    assert(ids@.skip(n as int) =~= Seq::<String>::empty());
    assert(r@.map_values(|b: Vec<String>| b@) + Seq::<Seq<String>>::empty() =~= r@.map_values(|b: Vec<String>| b@));
    r
}

/// The identifiers joined by commas.
pub open spec fn comma_joined(ids: Seq<Seq<char>>) -> Seq<char>
    decreases ids.len(),
{
    if ids.len() == 0 {
        Seq::empty()
    } else if ids.len() == 1 {
        ids[0]
    } else {
        comma_joined(ids.drop_last()) + ","@ + ids.last()
    }
}

/// The `id` parameter of the catalog request describing one batch: the
/// identifiers joined by commas (empty for an empty batch). Refused for a batch
/// above the catalog's limit.
pub fn get_video_info(video_ids: &Vec<String>) -> (r: Result<String, MetadataError>)
    ensures
        video_ids@.len() > VIDEO_INFO_BATCH_SIZE <==> r is Err,
        r is Err ==> r == Err::<String, MetadataError>(MetadataError::BadBatchSize),
        r matches Ok(q) ==> q@ == comma_joined(video_ids@.map_values(|s: String| s@)),
{
    let n = video_ids.len();
    if n > VIDEO_INFO_BATCH_SIZE {
        return Err(MetadataError::BadBatchSize);
    }
    if n == 0 {
        return Ok(String::new());
    }
    let ghost views = video_ids@.map_values(|s: String| s@);
    let mut q = video_ids[0].clone();
    let mut i: usize = 1;
    assert(views.take(1).drop_last() =~= Seq::<Seq<char>>::empty());
    while i < n
        invariant
            n == video_ids@.len(),
            1 <= i <= n,
            views == video_ids@.map_values(|s: String| s@),
            q@ == comma_joined(views.take(i as int)),
        decreases n - i,
    {
        q = q.concat(",");
        q = q.concat(video_ids[i].as_str());
        i = i + 1;
        assert(views.take(i as int).drop_last() =~= views.take(i - 1));
    }
    assert(views.take(n as int) =~= views);
    Ok(q)
}

/// The Queued steps recorded for one batch: one per video, in order, all
/// created at `now`.
pub fn video_info_steps(pipeline_id: u128, batch: &Vec<String>, now: i128) -> (r: Vec<Step>)
    ensures
        r@.len() == batch@.len(),
        forall|i: int|
            0 <= i < r@.len() ==> {
                &&& (#[trigger] r@[i]).pipeline_id == pipeline_id
                &&& r@[i].name@ == "video_info"@
                &&& r@[i].arg@ == video_arg_spec(batch@[i]@)
                &&& r@[i].status == StepStatus::Queued
                &&& r@[i].created_at == now
                &&& r@[i].finished_at.is_none()
                &&& r@[i].wf()
            },
{
    let mut r: Vec<Step> = Vec::new();
    let mut i: usize = 0;
    while i < batch.len()
        invariant
            i <= batch@.len(),
            r@.len() == i,
            forall|k: int|
                0 <= k < i ==> {
                    &&& (#[trigger] r@[k]).pipeline_id == pipeline_id
                    &&& r@[k].name@ == "video_info"@
                    &&& r@[k].arg@ == video_arg_spec(batch@[k]@)
                    &&& r@[k].status == StepStatus::Queued
                    &&& r@[k].created_at == now
                    &&& r@[k].finished_at.is_none()
                    &&& r@[k].wf()
                },
        decreases batch@.len() - i,
    {
        let arg = video_step_arg(batch[i].as_str());
        let s = Step::queued(new_record_id(), pipeline_id, String::from_str("video_info"), arg, now);
        r.push(s);
        i = i + 1;
    }
    r
}

/// The batch's steps once the catalog call returned: each Processed if the
/// batch's metadata was fetched and recorded, Error otherwise, finished at
/// `now`, all else kept.
pub fn complete_steps(steps: Vec<Step>, succeeded: bool, now: i128) -> (r: Vec<Step>)
    requires
        forall|i: int| 0 <= i < steps@.len() ==> (#[trigger] steps@[i]).wf() && steps@[i].status == StepStatus::Queued,
    ensures
        r@.len() == steps@.len(),
        forall|i: int|
            0 <= i < r@.len() ==> {
                &&& (#[trigger] r@[i]).id == steps@[i].id
                &&& r@[i].pipeline_id == steps@[i].pipeline_id
                &&& r@[i].name == steps@[i].name
                &&& r@[i].arg == steps@[i].arg
                &&& r@[i].created_at == steps@[i].created_at
                &&& r@[i].status == (if succeeded { StepStatus::Processed } else { StepStatus::Error })
                &&& r@[i].finished_at.is_some()
                &&& r@[i].wf()
            },
{
    let ghost orig = steps@;
    let mut steps = steps;
    let mut r: Vec<Step> = Vec::new();
    while steps.len() > 0
        invariant
            r@.len() + steps@.len() == orig.len(),
            steps@ == orig.skip(r@.len() as int),
            forall|i: int| 0 <= i < orig.len() ==> (#[trigger] orig[i]).wf() && orig[i].status == StepStatus::Queued,
            forall|i: int|
                0 <= i < r@.len() ==> {
                    &&& (#[trigger] r@[i]).id == orig[i].id
                    &&& r@[i].pipeline_id == orig[i].pipeline_id
                    &&& r@[i].name == orig[i].name
                    &&& r@[i].arg == orig[i].arg
                    &&& r@[i].created_at == orig[i].created_at
                    &&& r@[i].status == (if succeeded { StepStatus::Processed } else { StepStatus::Error })
                    &&& r@[i].finished_at.is_some()
                    &&& r@[i].wf()
                },
        decreases steps@.len(),
    {
        let s = steps.remove(0);
        assert(s == orig[r@.len() as int]);
        let t = s.finish(StepStatus::from_outcome(succeeded), now);
        r.push(t);
        assert(steps@ =~= orig.skip(r@.len() as int));
    }
    r
}

/// The record kept for one catalog video of `channel_id`, created at `now`.
pub open spec fn video_record_matches(r: YoutubeVideo, v: Video, channel_id: Seq<char>, now: i128) -> bool {
    &&& r.youtube_id == v.id
    &&& r.youtube_channel_id@ == channel_id
    &&& r.title == v.snippet.title
    &&& r.description == v.snippet.description
    &&& r.duration_secs as u64 == v.content_details.duration_secs
    &&& r.created_at == now
    &&& r.updated_at == now
}

/// The records to store for the videos the catalog returned, in order; refused
/// if a video is longer than `u32::MAX` seconds.
pub fn video_records(channel_id: &str, videos: &Vec<Video>, now: i128) -> (r: Result<Vec<YoutubeVideo>, MetadataError>)
    ensures
        (exists|i: int| 0 <= i < videos@.len() && #[trigger] videos@[i].content_details.duration_secs > u32::MAX)
            <==> r is Err,
        r is Err ==> r == Err::<Vec<YoutubeVideo>, MetadataError>(MetadataError::DurationTooLong),
        r matches Ok(recs) ==> recs@.len() == videos@.len() && forall|i: int|
            0 <= i < recs@.len() ==> video_record_matches(#[trigger] recs@[i], videos@[i], channel_id@, now),
{
    let mut recs: Vec<YoutubeVideo> = Vec::new();
    let mut i: usize = 0;
    while i < videos.len()
        invariant
            i <= videos@.len(),
            recs@.len() == i,
            forall|k: int| 0 <= k < i ==> #[trigger] videos@[k].content_details.duration_secs <= u32::MAX,
            forall|k: int| 0 <= k < i ==> video_record_matches(#[trigger] recs@[k], videos@[k], channel_id@, now),
        decreases videos@.len() - i,
    {
        let v = &videos[i];
        if v.content_details.duration_secs > u32::MAX as u64 {
            return Err(MetadataError::DurationTooLong);
        }
        recs.push(YoutubeVideo {
            id: new_record_id(),
            youtube_id: v.id.clone(),
            youtube_channel_id: String::from_str(channel_id),
            title: v.snippet.title.clone(),
            description: v.snippet.description.clone(),
            duration_secs: v.content_details.duration_secs as u32,
            created_at: now,
            updated_at: now,
        });
        i = i + 1;
    }
    Ok(recs)
}

} // verus!
