use std::collections::VecDeque;

use transcript_pipeline::{
    after_download, complete_steps, download_command, download_job, finish_pipeline, metadata_batches, plan_pipeline,
    transcription_command, video_download_step, video_info_steps, video_records, whisper_step, DispatchAction,
    Dispatcher, JobLog, PipelineConfig, Pool, PoolAction, PoolEvent, StepStatus, TranscriptionJob, Video,
    VideoContentDetails, VideoSnippet, VIDEO_INFO_BATCH_SIZE,
};

fn ids(n: usize) -> Vec<String> {
    (0..n).map(|i| format!("vid{i}")).collect()
}

fn catalog_video(id: &str, secs: u64) -> Video {
    Video {
        id: id.to_string(),
        content_details: VideoContentDetails { duration_secs: secs },
        snippet: VideoSnippet { title: format!("title {id}"), description: format!("about {id}") },
    }
}

struct RunOutcome {
    log: JobLog,
    pipeline_status: StepStatus,
    max_downloads_in_flight: usize,
    max_transcriptions_in_flight: usize,
    download_finishes: usize,
    transcription_finishes: usize,
    transcribed: Vec<String>,
}

/// Runs the whole workflow with a fake catalog and fake external tools: the
/// downloader fails for the identifiers in `failing`.
fn run_workflow(video_ids: Vec<String>, download_slots: usize, transcription_slots: usize, failing: &[&str]) -> RunOutcome {
    let config = PipelineConfig {
        youtube_channel_handle: "@chan".to_string(),
        download_max_concurrent_jobs: download_slots,
        whisper_max_concurrent_jobs: transcription_slots,
        whisper_model: "tiny".to_string(),
        whisper_threads: 2,
        queue_multiplier: 2,
        work_dir: "/work".to_string(),
    };
    let plan = plan_pipeline(config).unwrap();
    let mut log = JobLog::new();
    let pipeline = plan.pipeline.clone();
    let pid = pipeline.id;
    log.insert_pipeline(plan.pipeline.clone()).unwrap();

    // metadata stage
    for batch in metadata_batches(&video_ids, VIDEO_INFO_BATCH_SIZE) {
        let steps = video_info_steps(pid, &batch, 10);
        for s in &steps {
            log.insert_step(s.clone()).unwrap();
        }
        let videos: Vec<Video> = batch.iter().map(|id| catalog_video(id, 60)).collect();
        for rec in video_records("@chan", &videos, 11).unwrap() {
            log.insert_video(rec).unwrap();
        }
        for s in complete_steps(steps, true, 12) {
            log.update_step(s).unwrap();
        }
    }

    // dispatcher, download pool and transcription pool, interleaved
    let mut dispatcher = Dispatcher::new(video_ids);
    let mut dispatch_queue: VecDeque<String> = VecDeque::new();
    let mut dispatch_closed = false;
    let mut downloads = plan.download_pool;
    let mut transcriptions = plan.transcription_pool;
    let mut downloading: VecDeque<(transcript_pipeline::Step, TranscriptionJob)> = VecDeque::new();
    let mut transcription_queue: VecDeque<TranscriptionJob> = VecDeque::new();
    let mut transcription_closed = false;
    let mut transcribing: VecDeque<(transcript_pipeline::Step, TranscriptionJob)> = VecDeque::new();
    let mut out = RunOutcome {
        log: JobLog::new(),
        pipeline_status: StepStatus::Queued,
        max_downloads_in_flight: 0,
        max_transcriptions_in_flight: 0,
        download_finishes: 0,
        transcription_finishes: 0,
        transcribed: Vec::new(),
    };
    let mut guard = 0;
    while !(downloads.finished && transcriptions.finished) {
        guard += 1;
        assert!(guard < 10_000, "workflow did not terminate");
        if !dispatch_closed && dispatch_queue.len() < plan.dispatch_capacity {
            match dispatcher.next_action() {
                DispatchAction::Send(id) => dispatch_queue.push_back(id),
                DispatchAction::Close => dispatch_closed = true,
                DispatchAction::Done => {}
            }
        }
        if downloads.accepts_input() {
            if let Some(id) = dispatch_queue.pop_front() {
                assert_eq!(downloads.step(PoolEvent::Received), PoolAction::Spawn);
                let step = video_download_step(pid, &id);
                log.insert_step(step.clone()).unwrap();
                let job = download_job(&plan.audio_work_dir, &id);
                downloading.push_back((step, job));
            } else if dispatch_closed {
                if downloads.step(PoolEvent::InputClosed) == PoolAction::Finish {
                    out.download_finishes += 1;
                    transcription_closed = true;
                }
            }
        }
        out.max_downloads_in_flight = out.max_downloads_in_flight.max(downloads.in_flight);
        if !downloading.is_empty() && transcription_queue.len() < plan.transcription_capacity {
            let (step, job) = downloading.pop_front().unwrap();
            let cmd = download_command(&job.video_id, &job.audio_path);
            assert_eq!(cmd.program, "yt-dlp");
            let ok = !failing.contains(&job.video_id.as_str());
            let (step, next) = after_download(step, job, ok);
            log.update_step(step).unwrap();
            if let Some(job) = next {
                transcription_queue.push_back(job);
            }
            if downloads.step(PoolEvent::TaskFinished { succeeded: ok }) == PoolAction::Finish {
                out.download_finishes += 1;
                transcription_closed = true;
            }
        }
        if transcriptions.accepts_input() {
            if let Some(job) = transcription_queue.pop_front() {
                assert_eq!(transcriptions.step(PoolEvent::Received), PoolAction::Spawn);
                let step = whisper_step(pid, &job);
                log.insert_step(step.clone()).unwrap();
                transcribing.push_back((step, job));
            } else if transcription_closed {
                if transcriptions.step(PoolEvent::InputClosed) == PoolAction::Finish {
                    out.transcription_finishes += 1;
                }
            }
        }
        out.max_transcriptions_in_flight = out.max_transcriptions_in_flight.max(transcriptions.in_flight);
        if let Some((step, job)) = transcribing.pop_front() {
            let cmd = transcription_command(&plan.whisper, &job);
            assert_eq!(cmd.program, "whisper");
            out.transcribed.push(job.video_id.clone());
            log.update_step(step.complete(true)).unwrap();
            if transcriptions.step(PoolEvent::TaskFinished { succeeded: true }) == PoolAction::Finish {
                out.transcription_finishes += 1;
            }
        }
    }
    let finished = finish_pipeline(pipeline, &downloads, &transcriptions, 0);
    out.pipeline_status = finished.status;
    log.update_pipeline(finished).unwrap();
    out.log = log;
    out
}

fn steps_named<'a>(log: &'a JobLog, name: &str) -> Vec<&'a transcript_pipeline::Step> {
    log.steps.iter().filter(|s| s.name == name).collect()
}

#[test]
fn three_videos_end_to_end() {
    let out = run_workflow(ids(3), 2, 1, &[]);
    let info = steps_named(&out.log, "video_info");
    assert_eq!(info.len(), 3);
    assert!(info.iter().all(|s| s.status == StepStatus::Processed && s.finished_at.is_some()));
    let downloads = steps_named(&out.log, "video_download");
    assert_eq!(downloads.len(), 3);
    assert!(downloads.iter().all(|s| s.status == StepStatus::Processed));
    let whisper = steps_named(&out.log, "whisper");
    assert_eq!(whisper.len(), 3);
    assert!(whisper.iter().all(|s| s.status == StepStatus::Processed));
    assert_eq!(out.pipeline_status, StepStatus::Processed);
    assert_eq!(out.log.pipelines[0].status, StepStatus::Processed);
    assert_eq!(out.log.videos.len(), 3);
    assert!(out.max_downloads_in_flight <= 2);
    assert!(out.max_transcriptions_in_flight <= 1);
    assert_eq!(out.download_finishes, 1);
    assert_eq!(out.transcription_finishes, 1);
}

#[test]
fn one_failed_download_of_five() {
    let out = run_workflow(ids(5), 2, 1, &["vid2"]);
    let downloads = steps_named(&out.log, "video_download");
    assert_eq!(downloads.len(), 5);
    let failed: Vec<_> = downloads.iter().filter(|s| s.status == StepStatus::Error).collect();
    assert_eq!(failed.len(), 1);
    assert_eq!(failed[0].arg, "{\"video_id\":\"vid2\"}");
    assert_eq!(downloads.iter().filter(|s| s.status == StepStatus::Processed).count(), 4);
    let whisper = steps_named(&out.log, "whisper");
    assert_eq!(whisper.len(), 4);
    assert!(whisper.iter().all(|s| s.status == StepStatus::Processed));
    let mut transcribed = out.transcribed.clone();
    transcribed.sort();
    assert_eq!(transcribed, vec!["vid0", "vid1", "vid3", "vid4"]);
    assert_eq!(out.pipeline_status, StepStatus::Error);
    assert!(out.log.steps.iter().all(|s| s.status != StepStatus::Queued));
}

#[test]
fn many_videos_respect_pool_caps() {
    let out = run_workflow(ids(120), 3, 2, &["vid7", "vid99"]);
    assert!(out.max_downloads_in_flight <= 3);
    assert!(out.max_transcriptions_in_flight <= 2);
    assert_eq!(steps_named(&out.log, "video_info").len(), 120);
    assert_eq!(steps_named(&out.log, "whisper").len(), 118);
    assert_eq!(out.download_finishes, 1);
    assert_eq!(out.transcription_finishes, 1);
    assert!(out.log.steps.iter().all(|s| s.status != StepStatus::Queued));
    assert!(out
        .log
        .steps
        .iter()
        .all(|s| s.finished_at.map_or(false, |t| t >= s.created_at)));
}

#[test]
fn empty_channel_finishes_every_stage() {
    let out = run_workflow(Vec::new(), 2, 1, &[]);
    assert!(out.log.steps.is_empty());
    assert_eq!(out.download_finishes, 1);
    assert_eq!(out.transcription_finishes, 1);
    assert_eq!(out.pipeline_status, StepStatus::Processed);
}

#[test]
fn dispatcher_sends_in_order_then_closes_once() {
    let input = ids(4);
    let mut d = Dispatcher::new(input.clone());
    let mut sent = Vec::new();
    let mut closes = 0;
    for _ in 0..8 {
        match d.next_action() {
            DispatchAction::Send(id) => {
                assert_eq!(closes, 0);
                sent.push(id)
            }
            DispatchAction::Close => closes += 1,
            DispatchAction::Done => assert_eq!(closes, 1),
        }
    }
    assert_eq!(sent, input);
    assert_eq!(closes, 1);
}

#[test]
fn dispatcher_with_no_ids_closes_at_once() {
    let mut d = Dispatcher::new(Vec::new());
    assert!(matches!(d.next_action(), DispatchAction::Close));
    assert!(matches!(d.next_action(), DispatchAction::Done));
}

#[test]
fn pool_cap_and_drain() {
    assert!(Pool::new(0).is_none());
    let mut p = Pool::new(2).unwrap();
    assert!(p.accepts_input());
    assert_eq!(p.step(PoolEvent::Received), PoolAction::Spawn);
    assert_eq!(p.step(PoolEvent::Received), PoolAction::Spawn);
    assert!(!p.accepts_input());
    assert_eq!(p.in_flight, 2);
    assert_eq!(p.step(PoolEvent::TaskFinished { succeeded: true }), PoolAction::Continue);
    assert!(p.accepts_input());
    assert_eq!(p.step(PoolEvent::InputClosed), PoolAction::Continue);
    assert!(!p.accepts_input());
    assert!(p.has_tasks());
    assert_eq!(p.step(PoolEvent::TaskFinished { succeeded: false }), PoolAction::Finish);
    assert!(p.finished);
    assert_eq!((p.admitted, p.succeeded, p.failed), (2, 1, 1));
}

#[test]
fn pool_closed_while_idle_finishes_at_once() {
    let mut p = Pool::new(1).unwrap();
    assert_eq!(p.step(PoolEvent::InputClosed), PoolAction::Finish);
    assert!(p.finished && p.input_closed && !p.has_tasks());
}

#[test]
fn batches_of_fifty() {
    let input = ids(120);
    let batches = metadata_batches(&input, VIDEO_INFO_BATCH_SIZE);
    assert_eq!(batches.iter().map(|b| b.len()).collect::<Vec<_>>(), vec![50, 50, 20]);
    assert_eq!(batches.concat(), input);
    assert!(metadata_batches(&Vec::new(), 50).is_empty());
    assert_eq!(metadata_batches(&ids(50), 50).len(), 1);
}

#[test]
fn failed_batch_marks_every_step_error() {
    let batch = ids(3);
    let steps = video_info_steps(5, &batch, 100);
    assert!(steps.iter().all(|s| s.status == StepStatus::Queued && s.name == "video_info"));
    assert_eq!(steps[1].arg, "{\"video_id\":\"vid1\"}");
    let done = complete_steps(steps, false, 50);
    assert_eq!(done.len(), 3);
    assert!(done.iter().all(|s| s.status == StepStatus::Error && s.finished_at == Some(100)));
}

#[test]
fn download_outcome_decides_handoff() {
    let step = video_download_step(9, "abc");
    assert_eq!(step.name, "video_download");
    let job = download_job("/w/audio_files", "abc");
    assert_eq!(job.audio_path, "/w/audio_files/abc.mp3");
    let (ok_step, next) = after_download(step.clone(), job, true);
    assert_eq!(ok_step.status, StepStatus::Processed);
    assert_eq!(next.unwrap().video_id, "abc");
    let (bad_step, next) = after_download(step, download_job("/w/audio_files", "abc"), false);
    assert_eq!(bad_step.status, StepStatus::Error);
    assert!(next.is_none());
}
