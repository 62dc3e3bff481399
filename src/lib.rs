//! Orchestration core of a batch pipeline that turns a video channel's uploads
//! into transcripts: work-directory layout, the dispatcher and worker-pool state
//! machines, the job record model, and the decoding of catalog payloads.

pub mod catalog;
pub mod command;
pub mod coordinator;
pub mod dispatch;
pub mod duration;
pub mod jobs;
pub mod metadata;
pub mod model;
pub mod paths;
pub mod pool;
pub mod store;

pub use paths::{audio_path, audio_workdir, whisper_output_dir, whisper_work_dir};
pub use model::{Pipeline, Step, StepStatus, YoutubeVideo};
pub use pool::{Pool, PoolAction, PoolEvent};
pub use dispatch::{DispatchAction, Dispatcher};
pub use duration::{parse_content_details_duration, DurationError};
pub use catalog::{
    get_playlist_id, get_playlist_items, CatalogError, ChannelItem, ChannelListResponse, ChannelListing,
    ListingAction, PlaylistItem, PlaylistItemContentDetails, PlaylistItemsListResponsePayload, Video,
    VideoContentDetails, VideoSnippet,
};
pub use store::{video_insert_result, JobLog, StoreError, WriteOutcome};
pub use jobs::{
    after_download, download_command, download_job, transcription_command, video_download_step, video_step_arg,
    whisper_step, JobCommand, TranscriptionJob, WhisperConfig,
};
pub use metadata::{
    complete_steps, get_video_info, metadata_batches, video_info_steps, video_records, MetadataError,
    VIDEO_INFO_BATCH_SIZE,
};
pub use coordinator::{
    finish_pipeline, pipeline_args, plan_pipeline, ConfigError, PipelineConfig, PipelinePlan, DEFAULT_QUEUE_MULTIPLIER,
    PIPELINE_KIND,
};
pub use command::{Command, PipelineCommand, Task, YoutubeCommand};
