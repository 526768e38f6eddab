//! The control surface's decisions: routing a request to its endpoint and
//! composing each endpoint's response from plain values.  Accepting
//! connections, reading request bodies and sending responses is plain I/O
//! and lives outside the library.

use vstd::prelude::*;
use crate::battery::BatteryReading;
use crate::cpu_temp::cpu_temp_body;
use crate::cpu_temp::cpu_temp_message;
use crate::text::signed_decimal;
use crate::text::i32_to_string;
use crate::text::str_eq;

verus! {

/// The request methods the surface distinguishes.
#[derive(Clone, Copy, PartialEq, Eq, Structural, Debug)]
pub enum HttpMethod {
    Get,
    Put,
    Post,
    Other,
}

/// The endpoint a request is routed to.
#[derive(Clone, Copy, PartialEq, Eq, Structural, Debug)]
pub enum Route {
    /// liveness banner
    Root,
    /// report whether the streaming pipeline accepts connections
    CameraStreamStatus,
    /// report the latest state of charge
    BatteryPercent,
    /// report the latest cell voltage
    BatteryMillivolts,
    /// report the CPU temperature
    CpuTemp,
    /// list the recorded videos
    ListLocalVideos,
    /// submit the blink-on pattern to the indicator actor
    BlinkOn,
    /// submit the off pattern to the indicator actor
    BlinkOff,
    /// emit one mode signal to the mode controller
    RestartStreamMode,
    /// serve one recorded video, after validation
    DownloadVideo,
    /// an unroutable GET
    UnknownGet,
    /// an unroutable PUT
    UnknownPut,
    /// an unroutable POST
    UnknownPost,
    /// a method the surface does not implement
    NotImplemented,
}

/// Which endpoint a method and a request path name.
pub open spec fn route_of(method: HttpMethod, url: Seq<char>) -> Route {
    match method {
        HttpMethod::Get => {
            if url == "/"@ {
                Route::Root
            } else if url == "/camera-stream-status"@ {
                Route::CameraStreamStatus
            } else if url == "/battery-percent"@ {
                Route::BatteryPercent
            } else if url == "/battery-millivolts"@ {
                Route::BatteryMillivolts
            } else if url == "/cpu-temp"@ {
                Route::CpuTemp
            } else if url == "/list-local-videos"@ {
                Route::ListLocalVideos
            } else {
                Route::UnknownGet
            }
        },
        HttpMethod::Put => {
            if url == "/blink-on"@ {
                Route::BlinkOn
            } else if url == "/blink-off"@ {
                Route::BlinkOff
            } else if url == "/restart-stream-mode"@ {
                Route::RestartStreamMode
            } else {
                Route::UnknownPut
            }
        },
        HttpMethod::Post => {
            if url == "/download-video"@ {
                Route::DownloadVideo
            } else {
                Route::UnknownPost
            }
        },
        HttpMethod::Other => Route::NotImplemented,
    }
}

/// Routes one request.
pub fn route_request(method: HttpMethod, url: &str) -> (r: Route)
    ensures
        r == route_of(method, url@),
{
    match method {
        HttpMethod::Get => {
            if str_eq(url, "/") {
                Route::Root
            } else if str_eq(url, "/camera-stream-status") {
                Route::CameraStreamStatus
            } else if str_eq(url, "/battery-percent") {
                Route::BatteryPercent
            } else if str_eq(url, "/battery-millivolts") {
                Route::BatteryMillivolts
            } else if str_eq(url, "/cpu-temp") {
                Route::CpuTemp
            } else if str_eq(url, "/list-local-videos") {
                Route::ListLocalVideos
            } else {
                Route::UnknownGet
            }
        },
        HttpMethod::Put => {
            if str_eq(url, "/blink-on") {
                Route::BlinkOn
            } else if str_eq(url, "/blink-off") {
                Route::BlinkOff
            } else if str_eq(url, "/restart-stream-mode") {
                Route::RestartStreamMode
            } else {
                Route::UnknownPut
            }
        },
        HttpMethod::Post => {
            if str_eq(url, "/download-video") {
                Route::DownloadVideo
            } else {
                Route::UnknownPost
            }
        },
        HttpMethod::Other => Route::NotImplemented,
    }
}

/// A textual response: its status code and its body.
pub struct HttpResponse {
    pub status: u16,
    pub body: String,
}

/// The liveness banner.
pub fn root_response() -> (r: HttpResponse)
    ensures
        r.status == 200,
        r.body@ == "Welcome to Velovision Rearview"@,
{
    HttpResponse { status: 200, body: String::from_str("Welcome to Velovision Rearview") }
}

/// The streaming-pipeline liveness report, from the TCP probe's outcome.
pub fn camera_stream_status_response(service_up: bool) -> (r: HttpResponse)
    ensures
        r.status == 200,
        service_up ==> r.body@ == "true"@,
        !service_up ==> r.body@ == "false"@,
{
    if service_up {
        HttpResponse { status: 200, body: String::from_str("true") }
    } else {
        HttpResponse { status: 200, body: String::from_str("false") }
    }
}

/// The state-of-charge report: the latest percent figure when the latest
/// poll succeeded, else a failure notice.
pub fn battery_percent_response(reading: &BatteryReading) -> (r: HttpResponse)
    ensures
        reading.valid ==> r.status == 200 && r.body@ == signed_decimal(
            reading.state_of_charge_percent as int,
        ),
        !reading.valid ==> r.status == 500 && r.body@ == "Failed to get battery state of charge"@,
{
    if reading.valid {
        HttpResponse { status: 200, body: i32_to_string(reading.state_of_charge_percent) }
    } else {
        HttpResponse { status: 500, body: String::from_str(
            "Failed to get battery state of charge",
        ) }
    }
}

/// The cell-voltage report: the latest millivolt figure when the latest
/// poll succeeded, else a failure notice.
pub fn battery_millivolts_response(reading: &BatteryReading) -> (r: HttpResponse)
    ensures
        reading.valid ==> r.status == 200 && r.body@ == signed_decimal(
            reading.cell_millivolts as int,
        ),
        !reading.valid ==> r.status == 500 && r.body@ == "Failed to get battery voltage"@,
{
    if reading.valid {
        HttpResponse { status: 200, body: i32_to_string(reading.cell_millivolts) }
    } else {
        HttpResponse { status: 500, body: String::from_str("Failed to get battery voltage") }
    }
}

/// The CPU temperature report, from the raw text of the thermal node when
/// it could be read at all.
pub fn cpu_temp_response(raw: Option<&str>) -> (r: HttpResponse)
    ensures
        raw is Some ==> r.status == 200 && r.body@ == cpu_temp_body(raw->Some_0@),
        raw is None ==> r.status == 500 && r.body@ == "Failed to read CPU temperature"@,
{
    match raw {
        Option::Some(text) => HttpResponse { status: 200, body: cpu_temp_message(text) },
        Option::None => HttpResponse { status: 500, body: String::from_str(
            "Failed to read CPU temperature",
        ) },
    }
}

/// The acknowledgement for a blink-on request.
pub fn blink_on_response() -> (r: HttpResponse)
    ensures
        r.status == 200,
        r.body@ == "Turned on LED"@,
{
    HttpResponse { status: 200, body: String::from_str("Turned on LED") }
}

/// The acknowledgement for a blink-off request.
pub fn blink_off_response() -> (r: HttpResponse)
    ensures
        r.status == 200,
        r.body@ == "Turned off LED"@,
{
    HttpResponse { status: 200, body: String::from_str("Turned off LED") }
}

/// The acknowledgement for a mode-restart request.
pub fn restart_stream_mode_response() -> (r: HttpResponse)
    ensures
        r.status == 200,
        r.body@ == "Restarted streaming mode"@,
{
    HttpResponse { status: 200, body: String::from_str("Restarted streaming mode") }
}

/// The response for a GET no endpoint answers to.
pub fn unknown_get_response() -> (r: HttpResponse)
    ensures
        r.status == 501,
        r.body@ == "Unknown GET request"@,
{
    HttpResponse { status: 501, body: String::from_str("Unknown GET request") }
}

/// The response for a PUT no endpoint answers to.
pub fn unknown_put_response() -> (r: HttpResponse)
    ensures
        r.status == 501,
        r.body@ == "Unknown PUT request"@,
{
    HttpResponse { status: 501, body: String::from_str("Unknown PUT request") }
}

/// The response for a POST no endpoint answers to.
pub fn unknown_post_response() -> (r: HttpResponse)
    ensures
        r.status == 501,
        r.body@ == "Unknown POST request"@,
{
    HttpResponse { status: 501, body: String::from_str("Unknown POST request") }
}

/// The `.mkv` file suffix.
pub open spec fn mkv_suffix() -> Seq<char> {
    seq!['.', 'm', 'k', 'v']
}

/// Whether the path names an `.mkv` video file: it ends in `.mkv`, with at
/// least one character of file name before the suffix.
pub open spec fn has_mkv_extension(path: Seq<char>) -> bool {
    &&& path.len() > 4
    &&& path.subrange(path.len() - 4, path.len() as int) == mkv_suffix()
    &&& path[path.len() - 5] != '/'
}

/// The fate of one download request.
#[derive(Clone, Copy, PartialEq, Eq, Structural, Debug)]
pub enum VideoRequestOutcome {
    /// the path does not name an `.mkv` video: rejected, no file is read
    BadExtension,
    /// the path names an `.mkv` video but no such file exists: rejected
    Missing,
    /// the file is read and served
    Serve,
}

/// Validates one download request: the requested file is served exactly
/// when its path names an `.mkv` video and the file exists; anything else
/// is rejected without a file read.
pub fn video_request_outcome(path: &str, path_exists: bool) -> (r: VideoRequestOutcome)
    ensures
        (r is Serve) <==> (has_mkv_extension(path@) && path_exists),
        (r is BadExtension) <==> !has_mkv_extension(path@),
        (r is Missing) <==> (has_mkv_extension(path@) && !path_exists),
{
    let v = crate::text::chars_of(path);
    let n = v.len();
    let well_named = n > 4 && v[n - 4] == '.' && v[n - 3] == 'm' && v[n - 2] == 'k' && v[n - 1]
        == 'v' && v[n - 5] != '/';
    proof {
        if n > 4 {
            let tail = path@.subrange(n - 4, n as int);
            assert(tail[0] == path@[n - 4]);
            assert(tail[1] == path@[n - 3]);
            assert(tail[2] == path@[n - 2]);
            assert(tail[3] == path@[n - 1]);
            if path@[n - 4] == '.' && path@[n - 3] == 'm' && path@[n - 2] == 'k' && path@[n - 1]
                == 'v' {
                assert(tail =~= mkv_suffix());
            }
        }
        assert(well_named == has_mkv_extension(path@));
    }
    if !well_named {
        VideoRequestOutcome::BadExtension
    } else if !path_exists {
        VideoRequestOutcome::Missing
    } else {
        VideoRequestOutcome::Serve
    }
}

/// The rejection of a download request whose path is no `.mkv` video.
pub fn bad_extension_response() -> (r: HttpResponse)
    ensures
        r.status == 400,
        r.body@ == "Path is not a .mkv video file"@,
{
    HttpResponse { status: 400, body: String::from_str("Path is not a .mkv video file") }
}

/// The rejection of a download request for a file that does not exist.
pub fn missing_path_response() -> (r: HttpResponse)
    ensures
        r.status == 400,
        r.body@ == "Path does not exist"@,
{
    HttpResponse { status: 400, body: String::from_str("Path does not exist") }
}

/// The content type a served video is sent with.
pub fn video_content_type() -> (r: &'static str)
    ensures
        r@ == "video/x-matroska"@,
{
    "video/x-matroska"
}

} // verus!
