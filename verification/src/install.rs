//! The installation check: which directories and files an installation
//! script must have put in place, and the verdict given their presence.
//! Testing the filesystem itself is plain I/O and lives outside the
//! library.

use vstd::prelude::*;

verus! {

/// The directory the standalone recorder writes videos to.
pub fn videos_directory_path() -> (r: &'static str)
    ensures
        r@ == "/opt/velovision/standalone_videos"@,
{
    "/opt/velovision/standalone_videos"
}

/// The script that runs the standalone recording pipeline.
pub fn standalone_script_path() -> (r: &'static str)
    ensures
        r@ == "/opt/velovision/scripts/standalone_gstreamer.sh"@,
{
    "/opt/velovision/scripts/standalone_gstreamer.sh"
}

/// The service unit that runs this server.
pub fn server_unit_path() -> (r: &'static str)
    ensures
        r@ == "/etc/systemd/system/velovision-supreme-server.service"@,
{
    "/etc/systemd/system/velovision-supreme-server.service"
}

/// The service unit that streams the camera over TCP.
pub fn streaming_unit_path() -> (r: &'static str)
    ensures
        r@ == "/etc/systemd/system/velovision-camera-mjpeg-over-tcp.service"@,
{
    "/etc/systemd/system/velovision-camera-mjpeg-over-tcp.service"
}

/// The service unit that records to local storage.
pub fn standalone_unit_path() -> (r: &'static str)
    ensures
        r@ == "/etc/systemd/system/velovision-standalone-mode.service"@,
{
    "/etc/systemd/system/velovision-standalone-mode.service"
}

/// The installation verdict, given which required paths exist: the check
/// passes exactly when everything is present, and otherwise reports the
/// first missing path, in the order the installation lays them out.
pub fn check_installation(
    videos_dir: bool,
    standalone_script: bool,
    server_unit: bool,
    streaming_unit: bool,
    standalone_unit: bool,
) -> (r: Result<(), String>)
    ensures
        (r is Ok) <==> (videos_dir && standalone_script && server_unit && streaming_unit
            && standalone_unit),
        !videos_dir ==> r is Err && r->Err_0@
            == "Directory /opt/velovision/standalone_videos does not exist"@,
        videos_dir && !standalone_script ==> r is Err && r->Err_0@
            == "File /opt/velovision/scripts/standalone_gstreamer.sh does not exist"@,
        videos_dir && standalone_script && !server_unit ==> r is Err && r->Err_0@
            == "File /etc/systemd/system/velovision-supreme-server.service does not exist"@,
        videos_dir && standalone_script && server_unit && !streaming_unit ==> r is Err && r->Err_0@
            == "File /etc/systemd/system/velovision-camera-mjpeg-over-tcp.service does not exist"@,
        videos_dir && standalone_script && server_unit && streaming_unit && !standalone_unit ==> r
            is Err && r->Err_0@
            == "File /etc/systemd/system/velovision-standalone-mode.service does not exist"@,
{
    if !videos_dir {
        Result::Err(String::from_str("Directory /opt/velovision/standalone_videos does not exist"))
    } else if !standalone_script {
        Result::Err(
            String::from_str("File /opt/velovision/scripts/standalone_gstreamer.sh does not exist"),
        )
    } else if !server_unit {
        Result::Err(
            String::from_str(
                "File /etc/systemd/system/velovision-supreme-server.service does not exist",
            ),
        )
    } else if !streaming_unit {
        Result::Err(
            String::from_str(
                "File /etc/systemd/system/velovision-camera-mjpeg-over-tcp.service does not exist",
            ),
        )
    } else if !standalone_unit {
        Result::Err(
            String::from_str(
                "File /etc/systemd/system/velovision-standalone-mode.service does not exist",
            ),
        )
    } else {
        Result::Ok(())
    }
}

} // verus!
