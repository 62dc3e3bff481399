//! The operations the program offers, as values: which one to perform, and
//! with which validated settings.
use vstd::prelude::*;
use crate::coordinator::{ConfigError, PipelineConfig, DEFAULT_QUEUE_MULTIPLIER};

verus! {

/// The catalog credential, carried through without being read.
#[verifier::external_type_specification]
#[verifier::external_body]
#[verifier::reject_recursive_types(T)]
pub struct ExSecret<T: ?Sized>(redact::Secret<T>);

/// The catalog's base address, carried through without being read.
#[verifier::external_type_specification]
#[verifier::external_body]
pub struct ExUrl(url::Url);

/// Catalog lookups.
pub enum YoutubeCommand {
    /// Show the channels found for a handle.
    GetChannel { handle: String, youtube_authorization: redact::Secret<String> },
    /// Show one page of a playlist.
    GetPlaylistItems {
        playlist_id: String,
        youtube_authorization: redact::Secret<String>,
        page_token: Option<String>,
    },
}

/// Pipeline runs.
pub enum PipelineCommand {
    /// Transcribe every upload of a channel.
    Youtube {
        youtube_base_url: url::Url,
        youtube_authorization: redact::Secret<String>,
        youtube_channel_handle: String,
        whisper_concurrent_jobs: usize,
        whisper_model: String,
        whisper_threads: usize,
        work_dir: String,
        database_url: String,
    },
}

/// What the program was asked to do.
#[allow(inconsistent_fields)]
pub enum Command {
    /// Create and migrate the store.
    Init { database_url: String },
    Youtube { command: YoutubeCommand },
    Pipeline { command: PipelineCommand },
}

/// An operation ready to perform.
pub enum Task {
    InitDatabase { database_url: String },
    ShowChannel { handle: String, youtube_authorization: redact::Secret<String> },
    ShowPlaylistItems {
        playlist_id: String,
        youtube_authorization: redact::Secret<String>,
        page_token: Option<String>,
    },
    RunPipeline {
        youtube_base_url: url::Url,
        youtube_authorization: redact::Secret<String>,
        database_url: String,
        config: PipelineConfig,
    },
}

/// Settings of a pipeline run asked for with `whisper_concurrent_jobs`
/// transcription slots: twice as many download slots, and
/// `DEFAULT_QUEUE_MULTIPLIER` queued identifiers per download slot.
pub open spec fn run_config(
    youtube_channel_handle: String,
    whisper_concurrent_jobs: usize,
    whisper_model: String,
    whisper_threads: usize,
    work_dir: String,
) -> PipelineConfig {
    PipelineConfig {
        youtube_channel_handle,
        download_max_concurrent_jobs: (2 * whisper_concurrent_jobs) as usize,
        whisper_max_concurrent_jobs: whisper_concurrent_jobs,
        whisper_model,
        whisper_threads,
        queue_multiplier: DEFAULT_QUEUE_MULTIPLIER,
        work_dir,
    }
}

/// The operation a command asks for.
pub open spec fn command_task(c: Command) -> Result<Task, ConfigError> {
    match c {
        Command::Init { database_url } => Ok(Task::InitDatabase { database_url }),
        Command::Youtube { command: YoutubeCommand::GetChannel { handle, youtube_authorization } } => Ok(
            Task::ShowChannel { handle, youtube_authorization },
        ),
        Command::Youtube {
            command: YoutubeCommand::GetPlaylistItems { playlist_id, youtube_authorization, page_token },
        } => Ok(Task::ShowPlaylistItems { playlist_id, youtube_authorization, page_token }),
        Command::Pipeline {
            command: PipelineCommand::Youtube {
                youtube_base_url,
                youtube_authorization,
                youtube_channel_handle,
                whisper_concurrent_jobs,
                whisper_model,
                whisper_threads,
                work_dir,
                database_url,
            },
        } => if whisper_concurrent_jobs == 0 {
            Err(ConfigError::ZeroConcurrency)
        } else if whisper_concurrent_jobs > usize::MAX / 2 {
            Err(ConfigError::QueueTooLarge)
        } else {
            Ok(
                Task::RunPipeline {
                    youtube_base_url,
                    youtube_authorization,
                    database_url,
                    config: run_config(
                        youtube_channel_handle,
                        whisper_concurrent_jobs,
                        whisper_model,
                        whisper_threads,
                        work_dir,
                    ),
                },
            )
        },
    }
}

impl Command {
    /// The operation to perform; a pipeline run is refused when it would
    /// transcribe with no slot, or when its download slots would not fit in a
    /// `usize`.
    pub fn run(self) -> (r: Result<Task, ConfigError>)
        ensures
            r == command_task(self),
    {
        match self {
            Command::Init { database_url } => Ok(Task::InitDatabase { database_url }),
            Command::Youtube { command } => match command {
                YoutubeCommand::GetChannel { handle, youtube_authorization } => Ok(
                    Task::ShowChannel { handle, youtube_authorization },
                ),
                YoutubeCommand::GetPlaylistItems { playlist_id, youtube_authorization, page_token } => Ok(
                    Task::ShowPlaylistItems { playlist_id, youtube_authorization, page_token },
                ),
            },
            Command::Pipeline { command } => match command {
                PipelineCommand::Youtube {
                    youtube_base_url,
                    youtube_authorization,
                    youtube_channel_handle,
                    whisper_concurrent_jobs,
                    whisper_model,
                    whisper_threads,
                    work_dir,
                    database_url,
                } => {
                    if whisper_concurrent_jobs == 0 {
                        return Err(ConfigError::ZeroConcurrency);
                    }
                    if whisper_concurrent_jobs > usize::MAX / 2 {
                        return Err(ConfigError::QueueTooLarge);
                    }
                    let config = PipelineConfig {
                        youtube_channel_handle,
                        download_max_concurrent_jobs: 2 * whisper_concurrent_jobs,
                        whisper_max_concurrent_jobs: whisper_concurrent_jobs,
                        whisper_model,
                        whisper_threads,
                        queue_multiplier: DEFAULT_QUEUE_MULTIPLIER,
                        work_dir,
                    };
                    Ok(Task::RunPipeline { youtube_base_url, youtube_authorization, database_url, config })
                },
            },
        }
    }
}

} // verus!
