use transcript_pipeline::jobs::decimal_text;
use transcript_pipeline::{
    audio_path, audio_workdir, download_command, get_playlist_id, get_playlist_items, get_video_info, pipeline_args,
    plan_pipeline, transcription_command, video_insert_result, video_records, video_step_arg, whisper_output_dir,
    whisper_work_dir, CatalogError, ChannelItem, ChannelListResponse, ChannelListing, Command, ConfigError,
    JobLog, ListingAction, MetadataError, Pipeline, PipelineCommand, PipelineConfig, PlaylistItem,
    PlaylistItemContentDetails, PlaylistItemsListResponsePayload, Step, StepStatus, StoreError, Task,
    TranscriptionJob, Video, VideoContentDetails, VideoSnippet, WhisperConfig, WriteOutcome, YoutubeCommand,
    YoutubeVideo, PIPELINE_KIND,
};

fn page(ids: &[&str], next: Option<&str>) -> PlaylistItemsListResponsePayload {
    PlaylistItemsListResponsePayload {
        items: ids
            .iter()
            .map(|id| PlaylistItem { content_details: PlaylistItemContentDetails { video_id: id.to_string() } })
            .collect(),
        next_page_token: next.map(|t| t.to_string()),
    }
}

fn video(youtube_id: &str, title: &str) -> YoutubeVideo {
    YoutubeVideo {
        id: 1,
        youtube_id: youtube_id.to_string(),
        youtube_channel_id: "chan".to_string(),
        title: title.to_string(),
        description: String::new(),
        duration_secs: 10,
        created_at: 0,
        updated_at: 0,
    }
}

fn config() -> PipelineConfig {
    PipelineConfig {
        youtube_channel_handle: "@some\"chan".to_string(),
        download_max_concurrent_jobs: 4,
        whisper_max_concurrent_jobs: 2,
        whisper_model: "base".to_string(),
        whisper_threads: 8,
        queue_multiplier: 2,
        work_dir: "/data".to_string(),
    }
}

#[test]
fn paginated_listing_concatenates_pages() {
    let pages = [page(&["a", "b"], Some("page-two")), page(&["c"], Some("page-three")), page(&["d", "e"], None)];
    let mut listing = ChannelListing::new();
    let mut requested = Vec::new();
    let mut next = 0;
    loop {
        match listing.next_request() {
            ListingAction::FetchPage(token) => {
                requested.push(token);
                listing.on_page(&pages[next]);
                next += 1;
            }
            ListingAction::Done => break,
        }
    }
    assert_eq!(requested, vec![None, Some("page-two".to_string()), Some("page-three".to_string())]);
    assert_eq!(listing.video_ids, vec!["a", "b", "c", "d", "e"]);
}

#[test]
fn single_page_listing_stops_after_first_page() {
    let mut listing = ChannelListing::new();
    listing.on_page(&page(&[], None));
    assert!(matches!(listing.next_request(), ListingAction::Done));
    assert!(listing.video_ids.is_empty());
}

#[test]
fn playlist_page_ids_and_token() {
    let (ids, token) = get_playlist_items(&page(&["x", "y"], Some("t")));
    assert_eq!(ids, vec!["x", "y"]);
    assert_eq!(token, Some("t".to_string()));
}

#[test]
fn playlist_id_of_first_channel() {
    let r = ChannelListResponse {
        items: vec![
            ChannelItem { uploads_playlist_id: Some("UU1".to_string()) },
            ChannelItem { uploads_playlist_id: Some("UU2".to_string()) },
        ],
    };
    assert_eq!(get_playlist_id(&r), Ok("UU1".to_string()));
    assert_eq!(get_playlist_id(&ChannelListResponse { items: vec![] }), Err(CatalogError::NoUploadsPlaylist));
    let none = ChannelListResponse { items: vec![ChannelItem { uploads_playlist_id: None }] };
    assert_eq!(get_playlist_id(&none), Err(CatalogError::NoUploadsPlaylist));
}

#[test]
fn duplicate_video_insert_is_success_and_kept_once() {
    let mut log = JobLog::new();
    assert_eq!(log.insert_video(video("abc", "first")), Ok(()));
    assert_eq!(log.insert_video(video("abc", "second")), Ok(()));
    assert_eq!(log.videos.len(), 1);
    assert_eq!(log.videos[0].title, "first");
    assert_eq!(log.insert_video(video("def", "other")), Ok(()));
    assert_eq!(log.videos.len(), 2);
}

#[test]
fn backend_duplicate_key_counts_as_success() {
    assert_eq!(video_insert_result(WriteOutcome::Written), Ok(()));
    assert_eq!(video_insert_result(WriteOutcome::UniqueViolation), Ok(()));
    assert_eq!(video_insert_result(WriteOutcome::Failed), Err(StoreError::Backend));
}

#[test]
fn store_refuses_orphans_and_unknown_updates() {
    let mut log = JobLog::new();
    let step = Step::queued(7, 99, "whisper".to_string(), "{}".to_string(), 5);
    assert_eq!(log.insert_step(step.clone()), Err(StoreError::UnknownPipeline));
    let p = Pipeline::queued(99, "k".to_string(), "{}".to_string(), 1);
    assert_eq!(log.insert_pipeline(p.clone()), Ok(()));
    assert_eq!(log.insert_pipeline(p), Err(StoreError::DuplicateKey));
    assert_eq!(log.update_step(step.clone()), Err(StoreError::UnknownStep));
    assert_eq!(log.insert_step(step.clone()), Ok(()));
    assert_eq!(log.insert_step(step.clone()), Err(StoreError::DuplicateKey));
    let done = step.finish(StepStatus::Error, 9);
    assert_eq!(log.update_step(done), Ok(()));
    assert_eq!(log.steps.len(), 1);
    assert_eq!(log.steps[0].status, StepStatus::Error);
    assert_eq!(log.steps[0].finished_at, Some(9));
    let mut moved = Step::queued(7, 98, "whisper".to_string(), "{}".to_string(), 5);
    moved.arg = "x".to_string();
    assert_eq!(log.update_step(moved), Err(StoreError::UnknownPipeline));
    assert_eq!(log.update_pipeline(Pipeline::queued(5, "k".to_string(), "".to_string(), 0)), Err(StoreError::UnknownPipeline));
}

#[test]
fn step_finish_never_precedes_creation() {
    let s = Step::queued(1, 2, "video_download".to_string(), "a".to_string(), 100);
    assert_eq!(s.status, StepStatus::Queued);
    assert_eq!(s.state, "");
    assert_eq!(s.finished_at, None);
    let late = s.clone().finish(StepStatus::Processed, 150);
    assert_eq!(late.finished_at, Some(150));
    assert_eq!(late.updated_at, 150);
    let early = s.finish(StepStatus::Error, 40);
    assert_eq!(early.finished_at, Some(100));
    assert_eq!(early.status, StepStatus::Error);
}

#[test]
fn step_begin_and_complete() {
    let s = Step::begin(3, "whisper".to_string(), "arg".to_string());
    assert_eq!(s.status, StepStatus::Queued);
    let id = s.id;
    let created = s.created_at;
    let done = s.complete(false);
    assert_eq!(done.id, id);
    assert_eq!(done.status, StepStatus::Error);
    assert!(done.finished_at.unwrap() >= created);
}

#[test]
fn pipeline_status_on_finish() {
    let p = Pipeline::queued(1, "k".to_string(), "a".to_string(), 10);
    assert_eq!(p.clone().finish(true, 20).status, StepStatus::Processed);
    let failed = p.finish(false, 5);
    assert_eq!(failed.status, StepStatus::Error);
    assert_eq!(failed.finished_at, Some(10));
}

#[test]
fn status_names_and_outcomes() {
    assert_eq!(StepStatus::Queued.as_str(), "Queued");
    assert_eq!(StepStatus::Processed.as_str(), "Processed");
    assert_eq!(StepStatus::Error.as_str(), "Error");
    assert_eq!(StepStatus::from_outcome(true), StepStatus::Processed);
    assert_eq!(StepStatus::from_outcome(false), StepStatus::Error);
    assert!(!StepStatus::Queued.is_terminal());
    assert!(StepStatus::Error.is_terminal());
}

#[test]
fn work_directory_layout() {
    assert_eq!(audio_workdir("/w"), "/w/audio_files");
    assert_eq!(whisper_work_dir("/w"), "/w/whisper_output");
    assert_eq!(whisper_output_dir("/w/whisper_output", "abc"), "/w/whisper_output/abc");
    assert_eq!(audio_path("/w/audio_files", "abc"), "/w/audio_files/abc.mp3");
}

#[test]
fn step_arguments_are_json() {
    assert_eq!(video_step_arg("abc"), "{\"video_id\":\"abc\"}");
    assert_eq!(video_step_arg("a\"b"), "{\"video_id\":\"a\\\"b\"}");
    let job = TranscriptionJob { video_id: "abc".to_string(), audio_path: "/w/abc.mp3".to_string() };
    assert_eq!(job.step_arg(), "{\"video_id\":\"abc\",\"audio_path\":\"/w/abc.mp3\"}");
}

#[test]
fn external_command_lines() {
    let d = download_command("abc", "/w/abc.mp3");
    assert_eq!(d.program, "yt-dlp");
    assert_eq!(
        d.args,
        vec!["--extract-audio", "--audio-format", "mp3", "-o", "/w/abc.mp3", "https://www.youtube.com/watch?v=abc"]
    );
    let cfg = WhisperConfig { work_dir: "/w/whisper_output".to_string(), max_concurrent_jobs: 1, threads: 12, model: "tiny".to_string() };
    let job = TranscriptionJob { video_id: "abc".to_string(), audio_path: "/w/abc.mp3".to_string() };
    let t = transcription_command(&cfg, &job);
    assert_eq!(t.program, "whisper");
    assert_eq!(
        t.args,
        vec!["--verbose", "False", "--model", "tiny", "--output_dir", "/w/whisper_output/abc", "--threads", "12", "/w/abc.mp3"]
    );
}

#[test]
fn pipeline_args_snapshot() {
    assert_eq!(
        pipeline_args(&config()),
        "{\"download_max_concurrent_jobs\":4,\"whisper_max_concurrent_jobs\":2,\"whisper_model\":\"base\",\"whisper_threads\":8,\"youtube_channel_handle\":\"@some\\\"chan\"}"
    );
}

#[test]
fn plan_sizes_pools_and_queues() {
    let plan = plan_pipeline(config()).unwrap();
    assert_eq!(plan.pipeline.kind, PIPELINE_KIND);
    assert_eq!(plan.pipeline.status, StepStatus::Queued);
    assert_eq!(plan.download_pool.limit, 4);
    assert_eq!(plan.transcription_pool.limit, 2);
    assert_eq!(plan.dispatch_capacity, 8);
    assert_eq!(plan.transcription_capacity, 2);
    assert_eq!(plan.audio_work_dir, "/data/audio_files");
    assert_eq!(plan.whisper.work_dir, "/data/whisper_output");
}

#[test]
fn plan_refuses_bad_settings() {
    let mut c = config();
    c.whisper_max_concurrent_jobs = 0;
    assert!(matches!(plan_pipeline(c), Err(ConfigError::ZeroConcurrency)));
    let mut c = config();
    c.queue_multiplier = 0;
    assert!(matches!(plan_pipeline(c), Err(ConfigError::ZeroQueueMultiplier)));
    let mut c = config();
    c.queue_multiplier = usize::MAX;
    assert!(matches!(plan_pipeline(c), Err(ConfigError::QueueTooLarge)));
}

#[test]
fn video_info_request_and_records() {
    let batch = vec!["a".to_string(), "b".to_string(), "c".to_string()];
    assert_eq!(get_video_info(&batch), Ok("a,b,c".to_string()));
    assert_eq!(get_video_info(&Vec::new()), Ok(String::new()));
    let big: Vec<String> = (0..51).map(|i| i.to_string()).collect();
    assert_eq!(get_video_info(&big), Err(MetadataError::BadBatchSize));
    let v = Video {
        id: "a".to_string(),
        content_details: VideoContentDetails { duration_secs: 3723 },
        snippet: VideoSnippet { title: "T".to_string(), description: "D".to_string() },
    };
    let recs = video_records("chan", &vec![v.clone()], 77).unwrap();
    assert_eq!(recs[0].youtube_id, "a");
    assert_eq!(recs[0].youtube_channel_id, "chan");
    assert_eq!(recs[0].duration_secs, 3723);
    assert_eq!(recs[0].created_at, 77);
    let mut long = v;
    long.content_details.duration_secs = u32::MAX as u64 + 1;
    assert!(matches!(video_records("chan", &vec![long], 0), Err(MetadataError::DurationTooLong)));
}

#[test]
fn command_selects_task() {
    let secret: redact::Secret<String> = redact::Secret::new("SECRET-REDACTED".to_string());
    match (Command::Init { database_url: "sqlite://db".to_string() }).run() {
        Ok(Task::InitDatabase { database_url }) => assert_eq!(database_url, "sqlite://db"),
        _ => panic!("expected init"),
    }
    let get = Command::Youtube {
        command: YoutubeCommand::GetPlaylistItems {
            playlist_id: "UU".to_string(),
            youtube_authorization: secret.clone(),
            page_token: Some("n".to_string()),
        },
    };
    assert!(matches!(get.run(), Ok(Task::ShowPlaylistItems { .. })));
    let run = |jobs: usize| Command::Pipeline {
        command: PipelineCommand::Youtube {
            youtube_base_url: url::Url::parse("https://example.com/v3/").unwrap(),
            youtube_authorization: secret.clone(),
            youtube_channel_handle: "@c".to_string(),
            whisper_concurrent_jobs: jobs,
            whisper_model: "tiny".to_string(),
            whisper_threads: 4,
            work_dir: "/w".to_string(),
            database_url: "sqlite://db".to_string(),
        },
    };
    match run(3).run() {
        Ok(Task::RunPipeline { config, database_url, .. }) => {
            assert_eq!(config.download_max_concurrent_jobs, 6);
            assert_eq!(config.whisper_max_concurrent_jobs, 3);
            assert_eq!(config.queue_multiplier, 2);
            assert_eq!(database_url, "sqlite://db");
        }
        _ => panic!("expected a pipeline run"),
    }
    assert!(matches!(run(0).run(), Err(ConfigError::ZeroConcurrency)));
    assert!(matches!(run(usize::MAX).run(), Err(ConfigError::QueueTooLarge)));
}

#[test]
fn plan_for_smallest_valid_settings() {
    let mut c = config();
    c.download_max_concurrent_jobs = 1;
    c.whisper_max_concurrent_jobs = 1;
    let plan = plan_pipeline(c).unwrap();
    assert_eq!(plan.dispatch_capacity, 2);
    assert_eq!(plan.transcription_capacity, 1);
    assert_eq!(plan.pipeline.finished_at, None);
    assert!(plan.pipeline.args.contains("\"youtube_channel_handle\":\"@some\\\"chan\""));
}

#[test]
fn decimal_notation() {
    assert_eq!(decimal_text(0), "0");
    assert_eq!(decimal_text(7), "7");
    assert_eq!(decimal_text(10), "10");
    assert_eq!(decimal_text(1234), "1234");
    assert_eq!(decimal_text(usize::MAX), usize::MAX.to_string());
}

#[test]
fn fresh_records_are_unfinished() {
    let s = transcript_pipeline::whisper_step(
        4,
        &TranscriptionJob { video_id: "v".to_string(), audio_path: "/a/v.mp3".to_string() },
    );
    assert_eq!(s.created_at, s.updated_at);
    assert_eq!(s.finished_at, None);
    let plan = plan_pipeline(config()).unwrap();
    assert_eq!((plan.download_pool.admitted, plan.download_pool.failed), (0, 0));
    assert_eq!(plan.pipeline.created_at, plan.pipeline.updated_at);
}
