use radio_ondemand::model::{Corner, Episode};
use radio_ondemand::plan::{decide_episode, pipeline_args, pipeline_command, plan_episodes, series_requests, DownloadStep};
use radio_ondemand::urls::{new_arrivals_url, series_url};

fn corner(title: &str, series_site_id: &str, corner_site_id: &str) -> Corner {
    Corner {
        title: title.to_owned(),
        corner_name: title.to_lowercase(),
        series_site_id: series_site_id.to_owned(),
        corner_site_id: corner_site_id.to_owned(),
    }
}

fn episode(id: u32, program_title: &str, stream_url: &str) -> Episode {
    Episode {
        id,
        program_title: program_title.to_owned(),
        onair_date: "date".to_owned(),
        stream_url: stream_url.to_owned(),
        program_sub_title: "sub".to_owned(),
    }
}

#[test]
fn fixed_endpoints() {
    assert_eq!(
        new_arrivals_url(),
        "https://www.nhk.or.jp/radio-api/app/v1/web/ondemand/corners/new_arrivals"
    );
    assert_eq!(
        series_url("s7", "c9"),
        "https://www.nhk.or.jp/radio-api/app/v1/web/ondemand/series?site_id=s7&corner_site_id=c9"
    );
}

#[test]
fn one_corner_means_one_request() {
    let corners = vec![corner("A", "s1", "c1")];
    let reqs = series_requests(&corners);
    assert_eq!(reqs.len(), 1);
    assert_eq!(
        reqs[0],
        "https://www.nhk.or.jp/radio-api/app/v1/web/ondemand/series?site_id=s1&corner_site_id=c1"
    );
}

#[test]
fn empty_selection_means_no_request() {
    let corners: Vec<Corner> = Vec::new();
    assert_eq!(series_requests(&corners).len(), 0);
}

#[test]
fn requests_keep_corner_order() {
    let corners = vec![corner("B", "s2", "c2"), corner("A", "s1", "c1")];
    let reqs = series_requests(&corners);
    assert_eq!(reqs.len(), 2);
    assert!(reqs[0].contains("site_id=s2"));
    assert!(reqs[1].contains("site_id=s1"));
}

#[test]
fn plans_keep_episode_order() {
    let episodes = vec![episode(2, "second", "u2"), episode(1, "first", "u1")];
    let plans = plan_episodes("/tmp/rec", &episodes);
    assert_eq!(plans.len(), 2);
    assert_eq!(plans[0].stream_url, "u2");
    assert_eq!(plans[0].dest_path, "/tmp/rec/2_second.m4a");
    assert_eq!(plans[1].stream_url, "u1");
    assert_eq!(plans[1].dest_path, "/tmp/rec/1_first.m4a");
}

#[test]
fn existing_file_skips_the_download() {
    let step = DownloadStep {
        stream_url: "u".to_owned(),
        dest_path: "/tmp/rec/1_a.m4a".to_owned(),
    };
    assert!(decide_episode(&step, true).is_none());
}

#[test]
fn absent_file_runs_the_pipeline() {
    let step = DownloadStep {
        stream_url: "https://example.invalid/stream.m3u8".to_owned(),
        dest_path: "/tmp/rec/1_a.m4a".to_owned(),
    };
    let args = decide_episode(&step, false).unwrap();
    assert_eq!(args, pipeline_args("https://example.invalid/stream.m3u8", "/tmp/rec/1_a.m4a"));
}

#[test]
fn pipeline_command_is_fixed() {
    assert_eq!(pipeline_command(), "gst-launch-1.0");
}

#[test]
fn pipeline_argument_list_is_fixed() {
    let args = pipeline_args("URL", "DEST");
    let expected = vec![
        "souphttpsrc",
        "location=URL",
        "!",
        "hlsdemux",
        "!",
        "aacparse",
        "!",
        "mp4mux",
        "!",
        "filesink",
        "location=DEST",
        "sync=false",
        "async=false",
    ];
    assert_eq!(args, expected);
}
