use vstd::prelude::*;
use crate::model::{Corner, Episode};
use crate::paths::{episode_filename, spec_episode_filename};
use crate::text::{chars_to_string, push_chars, str_chars};
use crate::urls::{series_url, spec_series_url};

verus! {

/// Everything one episode download needs: where the stream is, and
/// where the file belongs.
pub struct DownloadStep {
    pub stream_url: String,
    pub dest_path: String,
}

/// The series endpoint URLs for the selected corners: one request per
/// corner, in the corners' order, each built from that corner's two
/// site ids. An empty selection asks for nothing.
pub fn series_requests(corners: &Vec<Corner>) -> (r: Vec<String>)
    ensures
        r@.len() == corners@.len(),
        forall|i: int|
            0 <= i < corners@.len() ==> r@[i]@ == spec_series_url(
                corners@[i].series_site_id@,
                corners@[i].corner_site_id@,
            ),
{
    let mut out: Vec<String> = Vec::new();
    let mut i: usize = 0;
    while i < corners.len()
        invariant
            i <= corners.len(),
            out@.len() == i,
            forall|j: int|
                0 <= j < i ==> out@[j]@ == spec_series_url(
                    corners@[j].series_site_id@,
                    corners@[j].corner_site_id@,
                ),
        decreases corners.len() - i,
    {
        let url = series_url(corners[i].series_site_id.as_str(), corners[i].corner_site_id.as_str());
        out.push(url);
        i = i + 1;
    }
    out
}

/// The download steps for a series: one per episode, in the episodes'
/// order, each carrying that episode's stream URL and its computed
/// output path under `output_dir`.
pub fn plan_episodes(output_dir: &str, episodes: &Vec<Episode>) -> (r: Vec<DownloadStep>)
    ensures
        r@.len() == episodes@.len(),
        forall|i: int| #![trigger r@[i]]
            0 <= i < episodes@.len() ==> r@[i].stream_url@ == episodes@[i].stream_url@
                && r@[i].dest_path@ == spec_episode_filename(
                output_dir@,
                episodes@[i].id as nat,
                episodes@[i].program_title@,
            ),
{
    let mut out: Vec<DownloadStep> = Vec::new();
    let mut i: usize = 0;
    while i < episodes.len()
        invariant
            i <= episodes.len(),
            out@.len() == i,
            forall|j: int| #![trigger out@[j]]
                0 <= j < i ==> out@[j].stream_url@ == episodes@[j].stream_url@
                    && out@[j].dest_path@ == spec_episode_filename(
                    output_dir@,
                    episodes@[j].id as nat,
                    episodes@[j].program_title@,
                ),
        decreases episodes.len() - i,
    {
        let dest_path = episode_filename(output_dir, episodes[i].id, episodes[i].program_title.as_str());
        let stream_url = episodes[i].stream_url.clone();
        out.push(DownloadStep { stream_url, dest_path });
        i = i + 1;
    }
    out
}

/// The name of the external media pipeline tool the executor launches.
pub open spec fn spec_pipeline_command() -> Seq<char> {
    "gst-launch-1.0"@
}

/// The executable the download executor runs; the fixed command is
/// library data together with `pipeline_args`.
pub fn pipeline_command() -> (r: String)
    ensures
        r@ == spec_pipeline_command(),
{
    "gst-launch-1.0".to_owned()
}

/// The fixed argument list of the external media pipeline: an HTTP
/// source reading the stream, HLS demultiplexing, AAC parsing, MP4
/// multiplexing, and a file sink at the destination, with
/// synchronization and the sink's asynchronous state changes disabled.
pub open spec fn spec_pipeline_args(stream_url: Seq<char>, dest_path: Seq<char>) -> Seq<Seq<char>> {
    seq![
        "souphttpsrc"@,
        "location="@ + stream_url,
        "!"@,
        "hlsdemux"@,
        "!"@,
        "aacparse"@,
        "!"@,
        "mp4mux"@,
        "!"@,
        "filesink"@,
        "location="@ + dest_path,
        "sync=false"@,
        "async=false"@,
    ]
}

fn location_arg(path: &str) -> (r: String)
    ensures
        r@ == "location="@ + path@,
{
    let prefix = str_chars("location=");
    let rest = str_chars(path);
    let mut out: Vec<char> = Vec::new();
    push_chars(&mut out, &prefix);
    push_chars(&mut out, &rest);
    chars_to_string(&out)
}

/// Builds the media pipeline's argument list for one download step.
pub fn pipeline_args(stream_url: &str, dest_path: &str) -> (r: Vec<String>)
    ensures
        r.deep_view() == spec_pipeline_args(stream_url@, dest_path@),
{
    let mut out: Vec<String> = Vec::new();
    out.push("souphttpsrc".to_owned());
    out.push(location_arg(stream_url));
    out.push("!".to_owned());
    out.push("hlsdemux".to_owned());
    out.push("!".to_owned());
    out.push("aacparse".to_owned());
    out.push("!".to_owned());
    out.push("mp4mux".to_owned());
    out.push("!".to_owned());
    out.push("filesink".to_owned());
    out.push(location_arg(dest_path));
    out.push("sync=false".to_owned());
    out.push("async=false".to_owned());
    assert(out.deep_view() =~~= spec_pipeline_args(stream_url@, dest_path@));
    out
}

/// The one decision made per episode: a file already standing at the
/// destination completes the episode, and nothing is run for it; an
/// absent file means the pipeline runs, with exactly the fixed
/// argument list for this step.
pub fn decide_episode(step: &DownloadStep, file_exists: bool) -> (r: Option<Vec<String>>)
    ensures
        file_exists ==> r is None,
        !file_exists ==> (r matches Some(args) && args.deep_view() == spec_pipeline_args(
            step.stream_url@,
            step.dest_path@,
        )),
{
    if file_exists {
        None
    } else {
        Some(pipeline_args(step.stream_url.as_str(), step.dest_path.as_str()))
    }
}

} // verus!
