//! Deriving one job's output locations and encoder invocation, and
//! classifying what came of running the encoder.
//!
//! The encoder itself is an opaque external process; the surrounding
//! binary creates the output directory, spawns the process with exactly
//! the argument list built here, and reports back what happened. This
//! module decides everything else: where the output goes, what the
//! arguments are, and whether the job succeeded.

use vstd::prelude::*;
use crate::chars::{dec_str, u32_to_string};
use crate::config::ServiceConfig;
use crate::job::JobError;
use crate::paths::{
    parent_spec,
    file_stem_spec,
    join_spec,
    parent_of,
    file_stem_of,
    join_paths,
};
use crate::qualify::views_of;

verus! {

/// The fixed name of the manifest inside the output directory.
pub open spec fn manifest_file_name() -> Seq<char> {
    "manifest.mpd"@
}

/// The initialization-segment name template handed to the encoder; the
/// placeholder names the representation.
pub open spec fn init_seg_name_spec() -> Seq<char> {
    "init-stream$RepresentationID$.m4s"@
}

/// The media-segment name template handed to the encoder; the
/// placeholders name the representation and a zero-padded segment number.
pub open spec fn media_seg_name_spec() -> Seq<char> {
    "chunk-stream$RepresentationID$-$Number%05d$.m4s"@
}

/// The output directory of input `p`: a sibling directory named after the
/// input's stem.
pub open spec fn output_dir_spec(p: Seq<char>) -> Seq<char> {
    join_spec(parent_spec(p), file_stem_spec(p)->Some_0)
}

/// The manifest path of input `p`: `manifest.mpd` inside the output
/// directory.
pub open spec fn manifest_path_spec(p: Seq<char>) -> Seq<char> {
    join_spec(output_dir_spec(p), manifest_file_name())
}

/// The full argument list of one encoder invocation on input `p` under
/// configuration `c`: the input, a fixed modern video codec with the
/// configured preset and quality, a fixed modern audio codec with the
/// configured bitrate, the segmented-streaming muxer with template and
/// timeline addressing, the configured segment duration, the two segment
/// name templates, and the manifest path as the output target.
pub open spec fn encoder_args_spec(p: Seq<char>, c: ServiceConfig) -> Seq<Seq<char>> {
    seq![
        "-i"@,
        p,
        "-c:v"@,
        "libx264"@,
        "-preset"@,
        c.ffmpeg_preset@,
        "-crf"@,
        dec_str(c.ffmpeg_crf as int),
        "-c:a"@,
        "aac"@,
        "-b:a"@,
        c.audio_bitrate@,
        "-f"@,
        "dash"@,
        "-seg_duration"@,
        dec_str(c.segment_duration as int),
        "-use_template"@,
        "1"@,
        "-use_timeline"@,
        "1"@,
        "-init_seg_name"@,
        init_seg_name_spec(),
        "-media_seg_name"@,
        media_seg_name_spec(),
        manifest_path_spec(p),
    ]
}

/// Everything a job needs to invoke the encoder once.
#[derive(Debug)]
pub struct TranscodePlan {
    /// Directory the encoder writes into; created before the invocation.
    pub output_dir: String,
    /// The manifest the encoder produces, the job's result on success.
    pub manifest_path: String,
    /// Initialization-segment name template.
    pub init_seg_name: String,
    /// Media-segment name template.
    pub media_seg_name: String,
    /// The encoder's full argument list, in order.
    pub args: Vec<String>,
}

/// Whether `plan` is the one invocation plan for input `p` under `c`.
pub open spec fn plan_correct(plan: TranscodePlan, p: Seq<char>, c: ServiceConfig) -> bool {
    plan.output_dir@ == output_dir_spec(p) && plan.manifest_path@ == manifest_path_spec(p)
        && plan.init_seg_name@ == init_seg_name_spec() && plan.media_seg_name@
        == media_seg_name_spec() && views_of(plan.args@) == encoder_args_spec(p, c)
}

fn push_str(v: &mut Vec<String>, s: &str)
    ensures
        final(v)@.len() == old(v)@.len() + 1,
        forall|i: int| 0 <= i < old(v)@.len() ==> final(v)@[i] == old(v)@[i],
        final(v)@.last()@ == s@,
{
    v.push(s.to_owned());
}

/// Builds the encoder argument list for input `p`, already-derived
/// manifest path included.
fn build_encoder_args(p: &str, config: &ServiceConfig, manifest_path: &str) -> (r: Vec<String>)
    requires
        manifest_path@ == manifest_path_spec(p@),
    ensures
        views_of(r@) == encoder_args_spec(p@, *config),
{
    let mut args: Vec<String> = Vec::new();
    push_str(&mut args, "-i");
    push_str(&mut args, p);
    push_str(&mut args, "-c:v");
    push_str(&mut args, "libx264");
    push_str(&mut args, "-preset");
    push_str(&mut args, config.ffmpeg_preset.as_str());
    push_str(&mut args, "-crf");
    let crf = u32_to_string(config.ffmpeg_crf);
    push_str(&mut args, crf.as_str());
    push_str(&mut args, "-c:a");
    push_str(&mut args, "aac");
    push_str(&mut args, "-b:a");
    push_str(&mut args, config.audio_bitrate.as_str());
    push_str(&mut args, "-f");
    push_str(&mut args, "dash");
    push_str(&mut args, "-seg_duration");
    let seg = u32_to_string(config.segment_duration);
    push_str(&mut args, seg.as_str());
    push_str(&mut args, "-use_template");
    push_str(&mut args, "1");
    push_str(&mut args, "-use_timeline");
    push_str(&mut args, "1");
    push_str(&mut args, "-init_seg_name");
    push_str(&mut args, "init-stream$RepresentationID$.m4s");
    push_str(&mut args, "-media_seg_name");
    push_str(&mut args, "chunk-stream$RepresentationID$-$Number%05d$.m4s");
    push_str(&mut args, manifest_path);
    proof {
        assert(views_of(args@) =~= encoder_args_spec(p@, *config));
    }
    args
}

/// Derives the invocation plan for input `p`: fails, before any directory
/// is created or process started, exactly when the input's file name has
/// no stem; otherwise yields the output directory, the manifest path, the
/// segment name templates and the full argument list.
pub fn derive_plan(p: &str, config: &ServiceConfig) -> (r: Result<TranscodePlan, JobError>)
    ensures
        file_stem_spec(p@) is Some ==> (r matches Ok(plan) && plan_correct(plan, p@, *config)),
        file_stem_spec(p@) is None ==> (r matches Err(e) && e is NoFileStem),
{
    let stem = match file_stem_of(p) {
        Some(s) => s,
        None => {
            return Err(JobError::NoFileStem);
        },
    };
    let parent = parent_of(p);
    let output_dir = join_paths(parent.as_str(), stem.as_str());
    let manifest_path = join_paths(output_dir.as_str(), "manifest.mpd");
    let args = build_encoder_args(p, config, manifest_path.as_str());
    Ok(
        TranscodePlan {
            output_dir,
            manifest_path,
            init_seg_name: String::from_str("init-stream$RepresentationID$.m4s"),
            media_seg_name: String::from_str("chunk-stream$RepresentationID$-$Number%05d$.m4s"),
            args,
        },
    )
}

/// The output locations depend on the input's parent and stem alone: two
/// inputs sharing both, whatever their extensions, are assigned the same
/// output directory and manifest path.
pub proof fn lemma_output_independent_of_extension(a: Seq<char>, b: Seq<char>)
    requires
        parent_spec(a) == parent_spec(b),
        file_stem_spec(a) == file_stem_spec(b),
    ensures
        output_dir_spec(a) == output_dir_spec(b),
        manifest_path_spec(a) == manifest_path_spec(b),
{
}

/// Settles one invocation from what the surrounding binary observed, in
/// the order the steps run: a directory-creation error fails the job
/// first, then a spawn error, then a non-zero encoder exit with the
/// captured standard error; only a clean exit succeeds, and then the
/// manifest path is the job's result.
pub fn invocation_outcome(
    dir_error: Option<String>,
    spawn_error: Option<String>,
    exit_zero: bool,
    stderr: String,
    manifest_path: String,
) -> (r: Result<String, JobError>)
    ensures
        dir_error matches Some(m) ==> (r matches Err(e) && e matches JobError::DirCreateFailed(t)
            && t@ == m@),
        dir_error is None && spawn_error is Some ==> (r matches Err(e) && e matches
            JobError::SpawnFailed(t) && t@ == spawn_error->Some_0@),
        dir_error is None && spawn_error is None && !exit_zero ==> (r matches Err(e) && e matches
            JobError::EncoderFailed(t) && t@ == stderr@),
        dir_error is None && spawn_error is None && exit_zero ==> (r matches Ok(m) && m@
            == manifest_path@),
{
    match dir_error {
        Some(m) => Err(JobError::DirCreateFailed(m)),
        None => match spawn_error {
            Some(m) => Err(JobError::SpawnFailed(m)),
            None => {
                if exit_zero {
                    Ok(manifest_path)
                } else {
                    Err(JobError::EncoderFailed(stderr))
                }
            },
        },
    }
}

} // verus!
