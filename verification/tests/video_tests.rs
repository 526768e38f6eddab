use supreme_server::http::bad_extension_response;
use supreme_server::http::missing_path_response;
use supreme_server::http::video_content_type;
use supreme_server::http::video_request_outcome;
use supreme_server::http::VideoRequestOutcome;
use supreme_server::videos::files_sorted_by_date;
use supreme_server::videos::format_system_time_to_string;
use supreme_server::videos::list_local_videos_json;
use supreme_server::videos::VideoEntry;

fn entry(path: &str, modified_seconds: u64) -> VideoEntry {
    VideoEntry { path: path.to_string(), modified_seconds }
}

#[test]
fn listing_is_sorted_by_ascending_modified_time() {
    let entries = vec![entry("/v/c.mkv", 500), entry("/v/a.mkv", 100), entry("/v/b.mkv", 300)];
    let sorted = files_sorted_by_date(entries);
    assert_eq!(sorted.len(), 3);
    assert_eq!(sorted[0].path, "/v/a.mkv");
    assert_eq!(sorted[0].modified_seconds, 100);
    assert_eq!(sorted[1].path, "/v/b.mkv");
    assert_eq!(sorted[2].path, "/v/c.mkv");
}

#[test]
fn earlier_modified_time_always_precedes_later() {
    let entries = vec![
        entry("/v/d.mkv", 7),
        entry("/v/e.mkv", 3),
        entry("/v/f.mkv", 9),
        entry("/v/g.mkv", 3),
        entry("/v/h.mkv", 1),
    ];
    let sorted = files_sorted_by_date(entries);
    for i in 0..sorted.len() {
        for j in (i + 1)..sorted.len() {
            assert!(sorted[i].modified_seconds <= sorted[j].modified_seconds);
        }
    }
    assert_eq!(sorted[0].modified_seconds, 1);
    assert_eq!(sorted[4].modified_seconds, 9);
}

#[test]
fn sorting_keeps_every_entry() {
    let entries = vec![entry("/v/x.mkv", 5), entry("/v/y.mkv", 5), entry("/v/z.mkv", 2)];
    let sorted = files_sorted_by_date(entries);
    assert_eq!(sorted.len(), 3);
    assert_eq!(sorted[0].path, "/v/z.mkv");
    let mut paths: Vec<&str> = sorted.iter().map(|e| e.path.as_str()).collect();
    paths.sort();
    assert_eq!(paths, vec!["/v/x.mkv", "/v/y.mkv", "/v/z.mkv"]);
}

#[test]
fn epoch_formats_as_the_first_instant() {
    assert_eq!(format_system_time_to_string(0).as_str(), "1970-01-01T00:00:00");
}

#[test]
fn timestamps_follow_the_simplified_calendar() {
    // 90061 s = 1 day, 1 hour, 1 minute, 1 second
    assert_eq!(format_system_time_to_string(90061).as_str(), "1970-01-02T01:01:01");
    // exactly one 365-day year: day counter reaches 365, i.e. day 6 of month 1
    assert_eq!(format_system_time_to_string(31536000).as_str(), "1971-01-06T00:00:00");
}

#[test]
fn listing_renders_the_documented_json() {
    let one = vec![entry("/opt/velovision/standalone_videos/log0001.mkv", 0)];
    assert_eq!(
        list_local_videos_json(&one).as_str(),
        "[{\"path\":\"/opt/velovision/standalone_videos/log0001.mkv\",\"date_updated\":\"1970-01-01T00:00:00\"}]"
    );
    let two = vec![entry("/v/a.mkv", 0), entry("/v/b.mkv", 90061)];
    assert_eq!(
        list_local_videos_json(&two).as_str(),
        "[{\"path\":\"/v/a.mkv\",\"date_updated\":\"1970-01-01T00:00:00\"},{\"path\":\"/v/b.mkv\",\"date_updated\":\"1970-01-02T01:01:01\"}]"
    );
    let none: Vec<VideoEntry> = vec![];
    assert_eq!(list_local_videos_json(&none).as_str(), "[]");
}

#[test]
fn listing_escapes_awkward_path_characters() {
    let tricky = vec![entry("/v/a\"b\\c\n.mkv", 0)];
    assert_eq!(
        list_local_videos_json(&tricky).as_str(),
        "[{\"path\":\"/v/a\\\"b\\\\c\\u000a.mkv\",\"date_updated\":\"1970-01-01T00:00:00\"}]"
    );
}

#[test]
fn mkv_path_that_exists_is_served() {
    assert_eq!(video_request_outcome("/videos/clip.mkv", true), VideoRequestOutcome::Serve);
    assert_eq!(video_request_outcome("a.mkv", true), VideoRequestOutcome::Serve);
}

#[test]
fn path_without_mkv_extension_is_rejected_before_any_read() {
    assert_eq!(video_request_outcome("/videos/clip.mp4", true), VideoRequestOutcome::BadExtension);
    assert_eq!(video_request_outcome("/videos/clip", true), VideoRequestOutcome::BadExtension);
    assert_eq!(video_request_outcome("", true), VideoRequestOutcome::BadExtension);
    // a bare or hidden ".mkv" has no file name before the suffix
    assert_eq!(video_request_outcome(".mkv", true), VideoRequestOutcome::BadExtension);
    assert_eq!(video_request_outcome("/videos/.mkv", true), VideoRequestOutcome::BadExtension);
    // case matters
    assert_eq!(video_request_outcome("/videos/clip.MKV", true), VideoRequestOutcome::BadExtension);
}

#[test]
fn missing_mkv_path_is_rejected() {
    assert_eq!(video_request_outcome("/videos/clip.mkv", false), VideoRequestOutcome::Missing);
    // a bad extension outranks existence
    assert_eq!(video_request_outcome("/videos/clip.mp4", false), VideoRequestOutcome::BadExtension);
}

#[test]
fn video_rejections_answer_400_with_their_reasons() {
    let bad = bad_extension_response();
    assert_eq!(bad.status, 400);
    assert_eq!(bad.body.as_str(), "Path is not a .mkv video file");
    let missing = missing_path_response();
    assert_eq!(missing.status, 400);
    assert_eq!(missing.body.as_str(), "Path does not exist");
}

#[test]
fn served_videos_carry_the_matroska_content_type() {
    assert_eq!(video_content_type(), "video/x-matroska");
}
