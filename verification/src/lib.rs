use vstd::prelude::*;
use vstd::string::StringExecFns;

pub mod afc;
pub mod codec;
pub mod device;
pub mod heartbeat;
pub mod install;
pub mod jit;
pub mod provision;
pub mod pval;
pub mod mounter;
pub mod muxer;
pub mod raw_packet;
pub mod text;

verus! {

/// Error taxonomy for every fallible operation of the library. The install
/// failure carries the message the device reported.
#[derive(Debug, Clone, PartialEq, Eq)]
pub enum Errors {
    NoDevice,
    NoConnection,
    PairingFile,

    CreateDebug,
    CreateInstproxy,
    CreateLockdown,
    CreateCoreDevice,
    CreateSoftwareTunnel,
    CreateRemoteServer,
    CreateProcessControl,

    GetLockdownValue,
    Connect,
    Close,
    XpcHandshake,
    NoService,
    InvalidProductVersion,
    LookupApps,
    FindApp,
    BundlePath,
    MaxPacket,
    WorkingDirectory,
    Argv,
    LaunchSuccess,
    Detach,
    Attach,

    CreateAfc,
    RwAfc,
    InstallApp(String),
    UninstallApp,

    CreateMisagent,
    ProfileInstall,
    ProfileRemove,

    CreateFolder,
    DownloadImage,
    ImageLookup,
    ImageRead,
    Mount,
}

/// The name of an error kind, as the logs and the caller see it; the install
/// failure shows the device's message in quotes, with Debug escapes.
pub open spec fn error_description(e: Errors) -> Seq<char> {
    match e {
        Errors::NoDevice => "NoDevice"@,
        Errors::NoConnection => "NoConnection"@,
        Errors::PairingFile => "PairingFile"@,
        Errors::CreateDebug => "CreateDebug"@,
        Errors::CreateInstproxy => "CreateInstproxy"@,
        Errors::CreateLockdown => "CreateLockdown"@,
        Errors::CreateCoreDevice => "CreateCoreDevice"@,
        Errors::CreateSoftwareTunnel => "CreateSoftwareTunnel"@,
        Errors::CreateRemoteServer => "CreateRemoteServer"@,
        Errors::CreateProcessControl => "CreateProcessControl"@,
        Errors::GetLockdownValue => "GetLockdownValue"@,
        Errors::Connect => "Connect"@,
        Errors::Close => "Close"@,
        Errors::XpcHandshake => "XpcHandshake"@,
        Errors::NoService => "NoService"@,
        Errors::InvalidProductVersion => "InvalidProductVersion"@,
        Errors::LookupApps => "LookupApps"@,
        Errors::FindApp => "FindApp"@,
        Errors::BundlePath => "BundlePath"@,
        Errors::MaxPacket => "MaxPacket"@,
        Errors::WorkingDirectory => "WorkingDirectory"@,
        Errors::Argv => "Argv"@,
        Errors::LaunchSuccess => "LaunchSuccess"@,
        Errors::Detach => "Detach"@,
        Errors::Attach => "Attach"@,
        Errors::CreateAfc => "CreateAfc"@,
        Errors::RwAfc => "RwAfc"@,
        Errors::InstallApp(m) => "InstallApp(\""@ + crate::text::escaped_debug(m@) + "\")"@,
        Errors::UninstallApp => "UninstallApp"@,
        Errors::CreateMisagent => "CreateMisagent"@,
        Errors::ProfileInstall => "ProfileInstall"@,
        Errors::ProfileRemove => "ProfileRemove"@,
        Errors::CreateFolder => "CreateFolder"@,
        Errors::DownloadImage => "DownloadImage"@,
        Errors::ImageLookup => "ImageLookup"@,
        Errors::ImageRead => "ImageRead"@,
        Errors::Mount => "Mount"@,
    }
}

/// Renders an error kind for a caller or a log line.
pub fn describe_error(error: Errors) -> (r: String)
    ensures
        r@ == error_description(error),
{
    match error {
        Errors::NoDevice => String::from_str("NoDevice"),
        Errors::NoConnection => String::from_str("NoConnection"),
        Errors::PairingFile => String::from_str("PairingFile"),
        Errors::CreateDebug => String::from_str("CreateDebug"),
        Errors::CreateInstproxy => String::from_str("CreateInstproxy"),
        Errors::CreateLockdown => String::from_str("CreateLockdown"),
        Errors::CreateCoreDevice => String::from_str("CreateCoreDevice"),
        Errors::CreateSoftwareTunnel => String::from_str("CreateSoftwareTunnel"),
        Errors::CreateRemoteServer => String::from_str("CreateRemoteServer"),
        Errors::CreateProcessControl => String::from_str("CreateProcessControl"),
        Errors::GetLockdownValue => String::from_str("GetLockdownValue"),
        Errors::Connect => String::from_str("Connect"),
        Errors::Close => String::from_str("Close"),
        Errors::XpcHandshake => String::from_str("XpcHandshake"),
        Errors::NoService => String::from_str("NoService"),
        Errors::InvalidProductVersion => String::from_str("InvalidProductVersion"),
        Errors::LookupApps => String::from_str("LookupApps"),
        Errors::FindApp => String::from_str("FindApp"),
        Errors::BundlePath => String::from_str("BundlePath"),
        Errors::MaxPacket => String::from_str("MaxPacket"),
        Errors::WorkingDirectory => String::from_str("WorkingDirectory"),
        Errors::Argv => String::from_str("Argv"),
        Errors::LaunchSuccess => String::from_str("LaunchSuccess"),
        Errors::Detach => String::from_str("Detach"),
        Errors::Attach => String::from_str("Attach"),
        Errors::CreateAfc => String::from_str("CreateAfc"),
        Errors::RwAfc => String::from_str("RwAfc"),
        Errors::InstallApp(m) => String::from_str("InstallApp(\"").concat(
            crate::text::debug_escaped(m.as_str()).as_str(),
        ).concat("\")"),
        Errors::UninstallApp => String::from_str("UninstallApp"),
        Errors::CreateMisagent => String::from_str("CreateMisagent"),
        Errors::ProfileInstall => String::from_str("ProfileInstall"),
        Errors::ProfileRemove => String::from_str("ProfileRemove"),
        Errors::CreateFolder => String::from_str("CreateFolder"),
        Errors::DownloadImage => String::from_str("DownloadImage"),
        Errors::ImageLookup => String::from_str("ImageLookup"),
        Errors::ImageRead => String::from_str("ImageRead"),
        Errors::Mount => String::from_str("Mount"),
    }
}

/// Readiness gate: the shim is usable only when the device answered a probe,
/// a device handle exists, the last heartbeat succeeded, and `start` ran.
/// The mounted flag is reported by the workers but deliberately not gated.
pub fn ready(
    device_connection: bool,
    device_exists: bool,
    heartbeat_success: bool,
    dmg_mounted: bool,
    started: bool,
) -> (r: bool)
    ensures
        r == (device_connection && device_exists && heartbeat_success && started),
        !started ==> !r,
{
    device_connection && device_exists && heartbeat_success && started
}

} // verus!
