//! Layout of the working directories shared by the download and transcription
//! stages. Every per-video path is keyed on the video identifier, so concurrent
//! tasks never write to the same file or directory.
use vstd::prelude::*;

verus! {

/// `{dir}/{leaf}`.
pub open spec fn joined(dir: Seq<char>, leaf: Seq<char>) -> Seq<char> {
    dir + "/"@ + leaf
}

/// Appends `/` and `leaf` to `dir`.
fn join_path(dir: &str, leaf: &str) -> (r: String)
    ensures
        r@ == joined(dir@, leaf@),
{
    let r = String::from_str(dir);
    let r = r.concat("/");
    let r = r.concat(leaf);
    r
}

/// Directory where downloaded audio files are written: `{work_dir}/audio_files`.
pub fn audio_workdir(work_dir: &str) -> (r: String)
    ensures
        r@ == joined(work_dir@, "audio_files"@),
{
    join_path(work_dir, "audio_files")
}

/// Root directory of transcription output: `{work_dir}/whisper_output`.
pub fn whisper_work_dir(work_dir: &str) -> (r: String)
    ensures
        r@ == joined(work_dir@, "whisper_output"@),
{
    join_path(work_dir, "whisper_output")
}

/// Per-video transcription output directory: `{whisper_work_dir}/{video_id}`.
pub fn whisper_output_dir(whisper_work_dir: &str, video_id: &str) -> (r: String)
    ensures
        r@ == joined(whisper_work_dir@, video_id@),
{
    join_path(whisper_work_dir, video_id)
}

/// Audio file of one video: `{audio_work_dir}/{video_id}.mp3`.
pub fn audio_path(audio_work_dir: &str, video_id: &str) -> (r: String)
    ensures
        r@ == joined(audio_work_dir@, video_id@ + ".mp3"@),
{
    let r = join_path(audio_work_dir, video_id);
    let r = r.concat(".mp3");
    proof {
        assert(r@ == joined(audio_work_dir@, video_id@ + ".mp3"@));
    }
    r
}

} // verus!
