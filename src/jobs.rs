//! Per-item work of the download and transcription pools: the step record that
//! brackets each external call, the command line of the external downloader and
//! transcriber, and what follows each call's outcome.
use vstd::prelude::*;
use crate::model::{Step, StepStatus};
use crate::paths::{audio_path, joined, whisper_output_dir};

verus! {

/// What `serde_json::to_string` makes of a string: its JSON string literal.
pub uninterp spec fn json_string_literal(s: Seq<char>) -> Seq<char>;

/// Relies on serde_json::to_string applied to a `str`: the quoted, escaped JSON
/// literal of the text. Serialising a `str` into memory does not fail; were it
/// to, the text returned would be empty.
#[verifier::external_body]
pub(crate) fn json_string(s: &str) -> (r: String)
    ensures
        r@ == json_string_literal(s@),
{
    match serde_json::to_string(s) {
        Ok(t) => t,
        Err(_) => String::new(),
    }
}

/// The decimal digit `d`.
pub open spec fn digit_char(d: nat) -> char {
    if d == 0 { '0' }
    else if d == 1 { '1' }
    else if d == 2 { '2' }
    else if d == 3 { '3' }
    else if d == 4 { '4' }
    else if d == 5 { '5' }
    else if d == 6 { '6' }
    else if d == 7 { '7' }
    else if d == 8 { '8' }
    else { '9' }
}

/// Decimal notation of `n`, without leading zeros.
pub open spec fn decimal(n: nat) -> Seq<char>
    decreases n,
{
    if n < 10 {
        seq![digit_char(n)]
    } else {
        decimal(n / 10) + seq![digit_char(n % 10)]
    }
}

/// The decimal digit `d` as a one-character text.
fn digit_text(d: usize) -> (r: &'static str)
    requires
        d < 10,
    ensures
        r@ == seq![digit_char(d as nat)],
{
    if d == 0 {
        proof { reveal_strlit("0"); }
        "0"
    } else if d == 1 {
        proof { reveal_strlit("1"); }
        "1"
    } else if d == 2 {
        proof { reveal_strlit("2"); }
        "2"
    } else if d == 3 {
        proof { reveal_strlit("3"); }
        "3"
    } else if d == 4 {
        proof { reveal_strlit("4"); }
        "4"
    } else if d == 5 {
        proof { reveal_strlit("5"); }
        "5"
    } else if d == 6 {
        proof { reveal_strlit("6"); }
        "6"
    } else if d == 7 {
        proof { reveal_strlit("7"); }
        "7"
    } else if d == 8 {
        proof { reveal_strlit("8"); }
        "8"
    } else {
        proof { reveal_strlit("9"); }
        "9"
    }
}

/// Decimal notation of `n`.
pub fn decimal_text(n: usize) -> (r: String)
    ensures
        r@ == decimal(n as nat),
{
    let mut m: usize = n;
    let mut r = String::new();
    while m >= 10
        invariant
            decimal(n as nat) == decimal(m as nat) + r@,
        decreases m,
    {
        let d = digit_text(m % 10);
        proof {
            assert(decimal(m as nat) == decimal((m / 10) as nat) + seq![digit_char((m % 10) as nat)]);
            assert(decimal((m / 10) as nat) + seq![digit_char((m % 10) as nat)] + r@ =~= decimal((m / 10) as nat) + (
            seq![digit_char((m % 10) as nat)] + r@));
        }
        r = String::from_str(d).concat(r.as_str());
        m = m / 10;
    }
    String::from_str(digit_text(m)).concat(r.as_str())
}

/// `{"video_id":<id>}` with the identifier as a JSON string.
pub open spec fn video_arg_spec(video_id: Seq<char>) -> Seq<char> {
    "{\"video_id\":"@ + json_string_literal(video_id) + "}"@
}

/// `{"video_id":<id>,"audio_path":<path>}` with both as JSON strings.
pub open spec fn transcription_arg_spec(video_id: Seq<char>, audio_path: Seq<char>) -> Seq<char> {
    "{\"video_id\":"@ + json_string_literal(video_id) + ",\"audio_path\":"@ + json_string_literal(audio_path) + "}"@
}

/// The serialised argument of a step about one video.
pub fn video_step_arg(video_id: &str) -> (r: String)
    ensures
        r@ == video_arg_spec(video_id@),
{
    let r = String::from_str("{\"video_id\":");
    let r = r.concat(json_string(video_id).as_str());
    r.concat("}")
}

/// A transcription job handed from the download pool to the transcription pool.
#[derive(Clone, Debug)]
pub struct TranscriptionJob {
    pub video_id: String,
    pub audio_path: String,
}

impl TranscriptionJob {
    /// The serialised argument of the job's transcription step.
    pub fn step_arg(&self) -> (r: String)
        ensures
            r@ == transcription_arg_spec(self.video_id@, self.audio_path@),
    {
        let r = String::from_str("{\"video_id\":");
        let r = r.concat(json_string(self.video_id.as_str()).as_str());
        let r = r.concat(",\"audio_path\":");
        let r = r.concat(json_string(self.audio_path.as_str()).as_str());
        r.concat("}")
    }
}

/// Settings of the transcription stage.
#[derive(Clone, Debug)]
pub struct WhisperConfig {
    pub work_dir: String,
    pub max_concurrent_jobs: usize,
    pub threads: usize,
    pub model: String,
}

/// An external process to run: the program and its arguments.
#[derive(Clone, Debug)]
pub struct JobCommand {
    pub program: String,
    pub args: Vec<String>,
}

/// The page of a video on the source platform.
pub open spec fn watch_url(video_id: Seq<char>) -> Seq<char> {
    "https://www.youtube.com/watch?v="@ + video_id
}

/// Arguments of the downloader: extract the audio as mp3 to `audio_path`.
pub open spec fn download_args_spec(video_id: Seq<char>, audio_path: Seq<char>) -> Seq<Seq<char>> {
    seq!["--extract-audio"@, "--audio-format"@, "mp3"@, "-o"@, audio_path, watch_url(video_id)]
}

/// Arguments of the transcriber for one audio file.
pub open spec fn transcribe_args_spec(model: Seq<char>, output_dir: Seq<char>, threads: nat, audio_path: Seq<char>) -> Seq<Seq<char>> {
    seq!["--verbose"@, "False"@, "--model"@, model, "--output_dir"@, output_dir, "--threads"@, decimal(threads), audio_path]
}

pub open spec fn views(v: Seq<String>) -> Seq<Seq<char>> {
    v.map_values(|s: String| s@)
}

fn push_str(v: &mut Vec<String>, s: &str)
    ensures
        final(v)@.len() == old(v)@.len() + 1,
        views(final(v)@) == views(old(v)@).push(s@),
{
    v.push(String::from_str(s));
    proof {
        assert(views(final(v)@) =~= views(old(v)@).push(s@));
    }
}

/// The downloader's command line for one video.
pub fn download_command(video_id: &str, audio_path: &str) -> (c: JobCommand)
    ensures
        c.program@ == "yt-dlp"@,
        views(c.args@) == download_args_spec(video_id@, audio_path@),
{
    let mut args: Vec<String> = Vec::new();
    push_str(&mut args, "--extract-audio");
    push_str(&mut args, "--audio-format");
    push_str(&mut args, "mp3");
    push_str(&mut args, "-o");
    push_str(&mut args, audio_path);
    let url = String::from_str("https://www.youtube.com/watch?v=").concat(video_id);
    push_str(&mut args, url.as_str());
    assert(views(args@) =~= download_args_spec(video_id@, audio_path@));
    JobCommand { program: String::from_str("yt-dlp"), args }
}

/// The transcriber's command line for one job, writing under the job's own
/// output directory.
pub fn transcription_command(config: &WhisperConfig, job: &TranscriptionJob) -> (c: JobCommand)
    ensures
        c.program@ == "whisper"@,
        views(c.args@) == transcribe_args_spec(
            config.model@,
            joined(config.work_dir@, job.video_id@),
            config.threads as nat,
            job.audio_path@,
        ),
{
    let out = whisper_output_dir(config.work_dir.as_str(), job.video_id.as_str());
    let threads = decimal_text(config.threads);
    let mut args: Vec<String> = Vec::new();
    push_str(&mut args, "--verbose");
    push_str(&mut args, "False");
    push_str(&mut args, "--model");
    push_str(&mut args, config.model.as_str());
    push_str(&mut args, "--output_dir");
    push_str(&mut args, out.as_str());
    push_str(&mut args, "--threads");
    push_str(&mut args, threads.as_str());
    push_str(&mut args, job.audio_path.as_str());
    assert(views(args@) =~= transcribe_args_spec(
        config.model@,
        joined(config.work_dir@, job.video_id@),
        config.threads as nat,
        job.audio_path@,
    ));
    JobCommand { program: String::from_str("whisper"), args }
}

/// The job that a successful download of `video_id` into `audio_work_dir`
/// hands to the transcription pool.
pub fn download_job(audio_work_dir: &str, video_id: &str) -> (j: TranscriptionJob)
    ensures
        j.video_id@ == video_id@,
        j.audio_path@ == joined(audio_work_dir@, video_id@ + ".mp3"@),
{
    TranscriptionJob { video_id: String::from_str(video_id), audio_path: audio_path(audio_work_dir, video_id) }
}

/// The Queued step recorded before downloading `video_id`.
pub fn video_download_step(pipeline_id: u128, video_id: &str) -> (s: Step)
    ensures
        s.pipeline_id == pipeline_id,
        s.name@ == "video_download"@,
        s.arg@ == video_arg_spec(video_id@),
        s.status == StepStatus::Queued,
        s.created_at == s.updated_at,
        s.finished_at.is_none(),
        s.wf(),
{
    Step::begin(pipeline_id, String::from_str("video_download"), video_step_arg(video_id))
}

/// After the download: the step becomes Processed and the job goes on to
/// transcription when the downloader succeeded; otherwise the step becomes
/// Error and nothing goes on.
pub fn after_download(step: Step, job: TranscriptionJob, succeeded: bool) -> (r: (Step, Option<TranscriptionJob>))
    requires
        step.wf(),
        step.status == StepStatus::Queued,
    ensures
        r.0.id == step.id,
        r.0.pipeline_id == step.pipeline_id,
        r.0.name == step.name,
        r.0.arg == step.arg,
        r.0.created_at == step.created_at,
        r.0.status == (if succeeded { StepStatus::Processed } else { StepStatus::Error }),
        r.0.finished_at.is_some(),
        r.0.wf(),
        succeeded ==> r.1 == Some(job),
        !succeeded ==> r.1.is_none(),
{
    let s = step.complete(succeeded);
    if succeeded {
        (s, Some(job))
    } else {
        (s, None)
    }
}

/// The Queued step recorded before transcribing a job.
pub fn whisper_step(pipeline_id: u128, job: &TranscriptionJob) -> (s: Step)
    ensures
        s.pipeline_id == pipeline_id,
        s.name@ == "whisper"@,
        s.arg@ == transcription_arg_spec(job.video_id@, job.audio_path@),
        s.status == StepStatus::Queued,
        s.created_at == s.updated_at,
        s.finished_at.is_none(),
        s.wf(),
{
    Step::begin(pipeline_id, String::from_str("whisper"), job.step_arg())
}

} // verus!
