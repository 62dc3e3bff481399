//! The pipeline coordinator's decisions: validating the configuration, sizing
//! the pools and queues, describing the run in its Pipeline record, and the
//! aggregate status once every stage has returned.
use vstd::prelude::*;
use crate::jobs::{decimal, decimal_text, json_string, json_string_literal, WhisperConfig};
use crate::model::{Pipeline, StepStatus};
use crate::paths::{audio_workdir, joined, whisper_work_dir};
use crate::pool::Pool;

verus! {

/// Kind tag of the whole-channel workflow.
pub const PIPELINE_KIND: &'static str = "youtube_whole_channel";

/// Queue capacity per worker slot when none is configured.
pub const DEFAULT_QUEUE_MULTIPLIER: usize = 2;

/// Settings of one run.
#[derive(Clone, Debug)]
pub struct PipelineConfig {
    pub youtube_channel_handle: String,
    pub download_max_concurrent_jobs: usize,
    pub whisper_max_concurrent_jobs: usize,
    pub whisper_model: String,
    pub whisper_threads: usize,
    /// Capacity of the dispatch queue per download slot.
    pub queue_multiplier: usize,
    pub work_dir: String,
}

/// Why a configuration cannot run.
#[derive(Clone, Copy, Debug, PartialEq, Eq, Structural)]
pub enum ConfigError {
    /// A pool would have no slot.
    ZeroConcurrency,
    /// The dispatch queue would have no room.
    ZeroQueueMultiplier,
    /// The dispatch queue's capacity does not fit in a `usize`.
    QueueTooLarge,
}

/// Everything the driver needs to start the stages.
#[derive(Clone, Debug)]
pub struct PipelinePlan {
    pub pipeline: Pipeline,
    pub download_pool: Pool,
    pub transcription_pool: Pool,
    /// Capacity of the queue from the dispatcher to the download pool.
    pub dispatch_capacity: usize,
    /// Capacity of the queue from the download pool to the transcription pool.
    pub transcription_capacity: usize,
    pub audio_work_dir: String,
    pub whisper: WhisperConfig,
}

/// The configuration snapshot stored with the run, as a JSON object with its
/// keys in order.
pub open spec fn pipeline_args_spec(c: PipelineConfig) -> Seq<char> {
    "{\"download_max_concurrent_jobs\":"@ + decimal(c.download_max_concurrent_jobs as nat)
        + ",\"whisper_max_concurrent_jobs\":"@ + decimal(c.whisper_max_concurrent_jobs as nat)
        + ",\"whisper_model\":"@ + json_string_literal(c.whisper_model@)
        + ",\"whisper_threads\":"@ + decimal(c.whisper_threads as nat)
        + ",\"youtube_channel_handle\":"@ + json_string_literal(c.youtube_channel_handle@) + "}"@
}

/// The configuration snapshot stored with the run.
pub fn pipeline_args(config: &PipelineConfig) -> (r: String)
    ensures
        r@ == pipeline_args_spec(*config),
{
    let r = String::from_str("{\"download_max_concurrent_jobs\":");
    let r = r.concat(decimal_text(config.download_max_concurrent_jobs).as_str());
    let r = r.concat(",\"whisper_max_concurrent_jobs\":");
    let r = r.concat(decimal_text(config.whisper_max_concurrent_jobs).as_str());
    let r = r.concat(",\"whisper_model\":");
    let r = r.concat(json_string(config.whisper_model.as_str()).as_str());
    let r = r.concat(",\"whisper_threads\":");
    let r = r.concat(decimal_text(config.whisper_threads).as_str());
    let r = r.concat(",\"youtube_channel_handle\":");
    let r = r.concat(json_string(config.youtube_channel_handle.as_str()).as_str());
    r.concat("}")
}

/// Validates the configuration and lays out the run: a Queued Pipeline record
/// describing it, two empty pools with the configured caps, a dispatch queue of
/// `queue_multiplier` places per download slot, a transcription queue of one
/// place per transcription slot, and the stages' working directories.
pub fn plan_pipeline(config: PipelineConfig) -> (r: Result<PipelinePlan, ConfigError>)
    ensures
        (config.download_max_concurrent_jobs == 0 || config.whisper_max_concurrent_jobs == 0) ==> r
            == Err::<PipelinePlan, ConfigError>(ConfigError::ZeroConcurrency),
        (config.download_max_concurrent_jobs > 0 && config.whisper_max_concurrent_jobs > 0
            && config.queue_multiplier == 0) ==> r == Err::<PipelinePlan, ConfigError>(ConfigError::ZeroQueueMultiplier),
        (config.download_max_concurrent_jobs > 0 && config.whisper_max_concurrent_jobs > 0 && config.queue_multiplier
            > 0 && config.download_max_concurrent_jobs * config.queue_multiplier > usize::MAX) ==> r == Err::<
            PipelinePlan,
            ConfigError,
        >(ConfigError::QueueTooLarge),
        (config.download_max_concurrent_jobs > 0 && config.whisper_max_concurrent_jobs > 0 && config.queue_multiplier
            > 0 && config.download_max_concurrent_jobs * config.queue_multiplier <= usize::MAX) ==> r is Ok,
        r matches Ok(p) ==> {
            &&& config.queue_multiplier > 0
            &&& p.pipeline.kind@ == PIPELINE_KIND@
            &&& p.pipeline.args@ == pipeline_args_spec(config)
            &&& p.pipeline.status == StepStatus::Queued
            &&& p.pipeline.finished_at.is_none()
            &&& p.pipeline.created_at == p.pipeline.updated_at
            &&& p.pipeline.wf()
            &&& p.download_pool.wf() && p.download_pool.limit == config.download_max_concurrent_jobs
            &&& p.download_pool.in_flight == 0 && !p.download_pool.input_closed && !p.download_pool.finished
            &&& p.download_pool.admitted == 0 && p.download_pool.succeeded == 0 && p.download_pool.failed == 0
            &&& p.transcription_pool.wf() && p.transcription_pool.limit == config.whisper_max_concurrent_jobs
            &&& p.transcription_pool.in_flight == 0 && !p.transcription_pool.input_closed && !p.transcription_pool.finished
            &&& p.transcription_pool.admitted == 0 && p.transcription_pool.succeeded == 0
                && p.transcription_pool.failed == 0
            &&& p.dispatch_capacity == config.download_max_concurrent_jobs * config.queue_multiplier
            &&& p.transcription_capacity == config.whisper_max_concurrent_jobs
            &&& p.audio_work_dir@ == joined(config.work_dir@, "audio_files"@)
            &&& p.whisper.work_dir@ == joined(config.work_dir@, "whisper_output"@)
            &&& p.whisper.max_concurrent_jobs == config.whisper_max_concurrent_jobs
            &&& p.whisper.threads == config.whisper_threads
            &&& p.whisper.model == config.whisper_model
        },
{
    let download_pool = match Pool::new(config.download_max_concurrent_jobs) {
        Some(p) => p,
        None => return Err(ConfigError::ZeroConcurrency),
    };
    let transcription_pool = match Pool::new(config.whisper_max_concurrent_jobs) {
        Some(p) => p,
        None => return Err(ConfigError::ZeroConcurrency),
    };
    if config.queue_multiplier == 0 {
        return Err(ConfigError::ZeroQueueMultiplier);
    }
    let dispatch_capacity = match config.download_max_concurrent_jobs.checked_mul(config.queue_multiplier) {
        Some(c) => c,
        None => return Err(ConfigError::QueueTooLarge),
    };
    let args = pipeline_args(&config);
    let pipeline = Pipeline::begin(String::from_str(PIPELINE_KIND), args);
    let audio_work_dir = audio_workdir(config.work_dir.as_str());
    let whisper = WhisperConfig {
        work_dir: whisper_work_dir(config.work_dir.as_str()),
        max_concurrent_jobs: config.whisper_max_concurrent_jobs,
        threads: config.whisper_threads,
        model: config.whisper_model,
    };
    Ok(PipelinePlan {
        pipeline,
        download_pool,
        transcription_pool,
        dispatch_capacity,
        transcription_capacity: config.whisper_max_concurrent_jobs,
        audio_work_dir,
        whisper,
    })
}

/// Closes the run once every stage has returned: Processed when no download,
/// no transcription and no metadata batch failed, Error otherwise.
pub fn finish_pipeline(pipeline: Pipeline, downloads: &Pool, transcriptions: &Pool, metadata_failures: u64) -> (p: Pipeline)
    requires
        pipeline.wf(),
        pipeline.status == StepStatus::Queued,
        downloads.finished,
        transcriptions.finished,
    ensures
        p.id == pipeline.id,
        p.kind == pipeline.kind,
        p.args == pipeline.args,
        p.created_at == pipeline.created_at,
        p.status == (if downloads.failed == 0 && transcriptions.failed == 0 && metadata_failures == 0 {
            StepStatus::Processed
        } else {
            StepStatus::Error
        }),
        p.finished_at.is_some(),
        p.wf(),
{
    let ok = downloads.failed == 0 && transcriptions.failed == 0 && metadata_failures == 0;
    let now = crate::model::now_nanos();
    pipeline.finish(ok, now)
}

} // verus!
