use vstd::prelude::*;

use vstd::string::{StrSliceExecFns, StringExecFns};

use crate::text::push_char;
use crate::Errors;

verus! {

pub const HEX: [char; 16] = [
    '0',
    '1',
    '2',
    '3',
    '4',
    '5',
    '6',
    '7',
    '8',
    '9',
    'A',
    'B',
    'C',
    'D',
    'E',
    'F',
];

/// The upper-case hex digits of a number, most significant first, at least
/// one.
pub open spec fn hex_digits(n: nat) -> Seq<char>
    decreases n,
{
    if n < 16 {
        seq![HEX@[n as int]]
    } else {
        hex_digits(n / 16).push(HEX@[(n % 16) as int])
    }
}

/// The digit string widened to `width` with leading zeroes; an already wide
/// one is kept whole.
pub open spec fn zero_pad(s: Seq<char>, width: int) -> Seq<char> {
    if s.len() >= width {
        s
    } else {
        Seq::new((width - s.len()) as nat, |i: int| '0') + s
    }
}

fn push_hex_digits(out: &mut String, x: u32)
    ensures
        final(out)@ == old(out)@ + hex_digits(x as nat),
    decreases x,
{
    if x < 16 {
        push_char(out, HEX[x as usize]);
        proof {
            assert(out@ =~= old(out)@ + hex_digits(x as nat));
        }
    } else {
        push_hex_digits(out, x / 16);
        push_char(out, HEX[(x % 16) as usize]);
        proof {
            assert((x / 16) as nat == (x as nat) / 16);
            assert((x % 16) as nat == (x as nat) % 16);
            assert(out@ =~= old(out)@ + hex_digits(x as nat));
        }
    }
}

/// The attach command sent for a process: `vAttach;` and the process id as
/// eight upper-case hex digits, zero-padded.
pub open spec fn attach_command_spec(pid: u32) -> Seq<char> {
    "vAttach;"@ + zero_pad(hex_digits(pid as nat), 8)
}

/// Formats the attach command for a process id.
pub fn attach_command(pid: u32) -> (r: String)
    ensures
        r@ == attach_command_spec(pid),
{
    let mut digits = String::new();
    push_hex_digits(&mut digits, pid);
    let len = digits.as_str().unicode_len();
    let mut cmd = String::from_str("vAttach;");
    let mut i = len;
    while i < 8
        invariant
            len <= i <= 8 || (len >= 8 && i == len),
            len == digits@.len(),
            i >= len,
            cmd@ == "vAttach;"@ + Seq::new((i - len) as nat, |j: int| '0'),
        decreases 8 - i,
    {
        push_char(&mut cmd, '0');
        proof {
            assert(cmd@ =~= "vAttach;"@ + Seq::new((i + 1 - len) as nat, |j: int| '0'));
        }
        i = i + 1;
    }
    cmd.append(digits.as_str());
    proof {
        if len >= 8 {
            assert(Seq::new(0, |j: int| '0') =~= Seq::<char>::empty());
            assert(cmd@ =~= "vAttach;"@ + zero_pad(digits@, 8));
        } else {
            assert(cmd@ =~= "vAttach;"@ + (Seq::new((8 - len) as nat, |j: int| '0') + digits@));
        }
    }
    cmd
}

/// The whole conversation of an attach by process id: the attach command,
/// then one detach.
pub fn attach_commands(pid: u32) -> (r: Vec<String>)
    ensures
        r@.len() == 2,
        r@[0]@ == attach_command_spec(pid),
        r@[1]@ == "D"@,
{
    let mut out: Vec<String> = Vec::new();
    out.push(attach_command(pid));
    out.push(String::from_str("D"));
    out
}

/// Attaches the debugger to a running process and detaches at once: the
/// outcome of each stage of the conversation mapped to the error owed for the
/// first failure.
pub fn attach_debugger(
    pid: u32,
    connection_ok: bool,
    device_found: bool,
    debug_server_ok: bool,
    attach_ok: bool,
    detach_ok: bool,
) -> (r: Result<(), Errors>)
    ensures
        !connection_ok ==> r == Result::<(), Errors>::Err(Errors::NoConnection),
        connection_ok && !device_found ==> r == Result::<(), Errors>::Err(Errors::NoDevice),
        connection_ok && device_found && !debug_server_ok ==> r == Result::<(), Errors>::Err(
            Errors::CreateDebug,
        ),
        connection_ok && device_found && debug_server_ok && !attach_ok ==> r == Result::<
            (),
            Errors,
        >::Err(Errors::Attach),
        connection_ok && device_found && debug_server_ok && attach_ok && !detach_ok ==> r
            == Result::<(), Errors>::Err(Errors::Detach),
        connection_ok && device_found && debug_server_ok && attach_ok && detach_ok ==> r
            == Result::<(), Errors>::Ok(()),
{
    if !connection_ok {
        Err(Errors::NoConnection)
    } else if !device_found {
        Err(Errors::NoDevice)
    } else if !debug_server_ok {
        Err(Errors::CreateDebug)
    } else if !attach_ok {
        Err(Errors::Attach)
    } else if !detach_ok {
        Err(Errors::Detach)
    } else {
        Ok(())
    }
}

/// One step of the legacy launch conversation: a command sent to the debug
/// server, or its argv set.
pub enum DebugStep {
    Command(String),
    SetArgv(Vec<String>),
}

/// The gdb-remote conversation of the legacy launch: the packet size, the
/// working directory, argv set to the bundle executable twice, the launch
/// check, and the detach.
pub fn legacy_debug_steps(working_directory: &str, bundle_path: &str) -> (r: Vec<DebugStep>)
    ensures
        r@.len() == 5,
        (r@[0] matches DebugStep::Command(c) && c@ == "QSetMaxPacketSize: 1024"@),
        (r@[1] matches DebugStep::Command(c) && c@ == "QSetWorkingDir: "@ + working_directory@),
        (r@[2] matches DebugStep::SetArgv(a) && a@.len() == 2 && a@[0]@ == bundle_path@ && a@[1]@
            == bundle_path@),
        (r@[3] matches DebugStep::Command(c) && c@ == "qLaunchSuccess"@),
        (r@[4] matches DebugStep::Command(c) && c@ == "D"@),
{
    let mut argv: Vec<String> = Vec::new();
    argv.push(String::from_str(bundle_path));
    argv.push(String::from_str(bundle_path));
    let mut out: Vec<DebugStep> = Vec::new();
    out.push(DebugStep::Command(String::from_str("QSetMaxPacketSize: 1024")));
    out.push(
        DebugStep::Command(String::from_str("QSetWorkingDir: ").concat(working_directory)),
    );
    out.push(DebugStep::SetArgv(argv));
    out.push(DebugStep::Command(String::from_str("qLaunchSuccess")));
    out.push(DebugStep::Command(String::from_str("D")));
    out
}

/// The attach command of the tunnelled launch: at least two upper-case hex
/// digits, as the debug proxy expects them.
pub open spec fn modern_attach_command_spec(pid: u32) -> Seq<char> {
    "vAttach;"@ + zero_pad(hex_digits(pid as nat), 2)
}

/// The debug-proxy conversation after the tunnelled launch: one attach to the
/// fresh process, then four detaches.
pub fn modern_debug_commands(pid: u32) -> (r: Vec<String>)
    ensures
        r@.len() == 5,
        r@[0]@ == modern_attach_command_spec(pid),
        forall|i: int| 1 <= i < 5 ==> r@[i]@ == "D"@,
{
    let mut digits = String::new();
    push_hex_digits(&mut digits, pid);
    let mut cmd = String::from_str("vAttach;");
    if digits.as_str().unicode_len() < 2 {
        push_char(&mut cmd, '0');
        proof {
            assert(Seq::new(1, |j: int| '0') =~= seq!['0']);
            assert(cmd@ =~= "vAttach;"@ + Seq::new(1, |j: int| '0'));
        }
    }
    cmd.append(digits.as_str());
    proof {
        if digits@.len() >= 2 {
            assert(cmd@ =~= "vAttach;"@ + zero_pad(digits@, 2));
        } else {
            assert(cmd@ =~= "vAttach;"@ + (Seq::new(1, |j: int| '0') + digits@));
            assert(hex_digits(pid as nat).len() >= 1);
        }
    }
    let mut out: Vec<String> = Vec::new();
    out.push(cmd);
    out.push(String::from_str("D"));
    out.push(String::from_str("D"));
    out.push(String::from_str("D"));
    out.push(String::from_str("D"));
    out
}

/// The stages of the legacy launch, in the order they run.
#[derive(Debug, Clone, Copy, PartialEq, Eq, Structural)]
pub enum LegacyDebugStage {
    CreateDebugServer,
    CreateInstproxy,
    LookupApps,
    FindContainer,
    GetBundlePath,
    MaxPacket,
    WorkingDirectory,
    Argv,
    LaunchSuccess,
    Detach,
}

/// The error each legacy stage owes on failure.
pub open spec fn legacy_debug_error_spec(s: LegacyDebugStage) -> Errors {
    match s {
        LegacyDebugStage::CreateDebugServer => Errors::CreateDebug,
        LegacyDebugStage::CreateInstproxy => Errors::CreateInstproxy,
        LegacyDebugStage::LookupApps => Errors::LookupApps,
        LegacyDebugStage::FindContainer => Errors::FindApp,
        LegacyDebugStage::GetBundlePath => Errors::BundlePath,
        LegacyDebugStage::MaxPacket => Errors::MaxPacket,
        LegacyDebugStage::WorkingDirectory => Errors::WorkingDirectory,
        LegacyDebugStage::Argv => Errors::Argv,
        LegacyDebugStage::LaunchSuccess => Errors::LaunchSuccess,
        LegacyDebugStage::Detach => Errors::Detach,
    }
}

/// The stages of the tunnelled launch, in the order they run.
#[derive(Debug, Clone, Copy, PartialEq, Eq, Structural)]
pub enum ModernDebugStage {
    ConnectMux,
    NoDeviceFromMux,
    CreateCoreDevice,
    CreateSoftwareTunnel,
    ConnectRsd,
    XpcHandshake,
    DvtServiceMissing,
    DebugProxyServiceMissing,
    CloseXpc,
    ConnectDvt,
    ReadRemoteServer,
    CreateProcessControl,
    LaunchApp,
    CloseDvt,
    ConnectDebugProxy,
    SendAttachCommands,
}

/// The error each tunnelled stage owes on failure.
pub open spec fn modern_debug_error_spec(s: ModernDebugStage) -> Errors {
    match s {
        ModernDebugStage::ConnectMux => Errors::NoConnection,
        ModernDebugStage::NoDeviceFromMux => Errors::NoConnection,
        ModernDebugStage::CreateCoreDevice => Errors::CreateCoreDevice,
        ModernDebugStage::CreateSoftwareTunnel => Errors::CreateSoftwareTunnel,
        ModernDebugStage::ConnectRsd => Errors::Connect,
        ModernDebugStage::XpcHandshake => Errors::XpcHandshake,
        ModernDebugStage::DvtServiceMissing => Errors::NoService,
        ModernDebugStage::DebugProxyServiceMissing => Errors::NoService,
        ModernDebugStage::CloseXpc => Errors::Close,
        ModernDebugStage::ConnectDvt => Errors::Connect,
        ModernDebugStage::ReadRemoteServer => Errors::CreateRemoteServer,
        ModernDebugStage::CreateProcessControl => Errors::CreateProcessControl,
        ModernDebugStage::LaunchApp => Errors::LaunchSuccess,
        ModernDebugStage::CloseDvt => Errors::Close,
        ModernDebugStage::ConnectDebugProxy => Errors::CreateDebug,
        ModernDebugStage::SendAttachCommands => Errors::Attach,
    }
}

/// Maps the first failed stage of the legacy launch to its error.
pub fn legacy_debug_result(first_failure: Option<LegacyDebugStage>) -> (r: Result<(), Errors>)
    ensures
        match first_failure {
            None => r == Result::<(), Errors>::Ok(()),
            Some(s) => r == Result::<(), Errors>::Err(legacy_debug_error_spec(s)),
        },
{
    match first_failure {
        None => Ok(()),
        Some(LegacyDebugStage::CreateDebugServer) => Err(Errors::CreateDebug),
        Some(LegacyDebugStage::CreateInstproxy) => Err(Errors::CreateInstproxy),
        Some(LegacyDebugStage::LookupApps) => Err(Errors::LookupApps),
        Some(LegacyDebugStage::FindContainer) => Err(Errors::FindApp),
        Some(LegacyDebugStage::GetBundlePath) => Err(Errors::BundlePath),
        Some(LegacyDebugStage::MaxPacket) => Err(Errors::MaxPacket),
        Some(LegacyDebugStage::WorkingDirectory) => Err(Errors::WorkingDirectory),
        Some(LegacyDebugStage::Argv) => Err(Errors::Argv),
        Some(LegacyDebugStage::LaunchSuccess) => Err(Errors::LaunchSuccess),
        Some(LegacyDebugStage::Detach) => Err(Errors::Detach),
    }
}

/// Maps the first failed stage of the tunnelled launch to its error.
pub fn modern_debug_result(first_failure: Option<ModernDebugStage>) -> (r: Result<(), Errors>)
    ensures
        match first_failure {
            None => r == Result::<(), Errors>::Ok(()),
            Some(s) => r == Result::<(), Errors>::Err(modern_debug_error_spec(s)),
        },
{
    match first_failure {
        None => Ok(()),
        Some(ModernDebugStage::ConnectMux) => Err(Errors::NoConnection),
        Some(ModernDebugStage::NoDeviceFromMux) => Err(Errors::NoConnection),
        Some(ModernDebugStage::CreateCoreDevice) => Err(Errors::CreateCoreDevice),
        Some(ModernDebugStage::CreateSoftwareTunnel) => Err(Errors::CreateSoftwareTunnel),
        Some(ModernDebugStage::ConnectRsd) => Err(Errors::Connect),
        Some(ModernDebugStage::XpcHandshake) => Err(Errors::XpcHandshake),
        Some(ModernDebugStage::DvtServiceMissing) => Err(Errors::NoService),
        Some(ModernDebugStage::DebugProxyServiceMissing) => Err(Errors::NoService),
        Some(ModernDebugStage::CloseXpc) => Err(Errors::Close),
        Some(ModernDebugStage::ConnectDvt) => Err(Errors::Connect),
        Some(ModernDebugStage::ReadRemoteServer) => Err(Errors::CreateRemoteServer),
        Some(ModernDebugStage::CreateProcessControl) => Err(Errors::CreateProcessControl),
        Some(ModernDebugStage::LaunchApp) => Err(Errors::LaunchSuccess),
        Some(ModernDebugStage::CloseDvt) => Err(Errors::Close),
        Some(ModernDebugStage::ConnectDebugProxy) => Err(Errors::CreateDebug),
        Some(ModernDebugStage::SendAttachCommands) => Err(Errors::Attach),
    }
}

/// Launches an app for debugging and detaches: the device must answer, a
/// handle must exist, the product version must parse, and the version gate
/// picks the legacy debugserver path below seventeen and the tunnelled path
/// from seventeen on; the first failed stage of the chosen path names the
/// error.
pub fn debug_app(
    connection_ok: bool,
    device_found: bool,
    lockdown_ok: bool,
    major_version: Option<u8>,
    legacy_failure: Option<LegacyDebugStage>,
    modern_failure: Option<ModernDebugStage>,
) -> (r: Result<(), Errors>)
    ensures
        !connection_ok ==> r == Result::<(), Errors>::Err(Errors::NoConnection),
        connection_ok && !device_found ==> r == Result::<(), Errors>::Err(Errors::NoDevice),
        connection_ok && device_found && !lockdown_ok ==> r == Result::<(), Errors>::Err(
            Errors::CreateLockdown,
        ),
        connection_ok && device_found && lockdown_ok && major_version is None ==> r == Result::<
            (),
            Errors,
        >::Err(Errors::GetLockdownValue),
        connection_ok && device_found && lockdown_ok && (major_version matches Some(v) && v < 17)
            ==> match legacy_failure {
            None => r == Result::<(), Errors>::Ok(()),
            Some(s) => r == Result::<(), Errors>::Err(legacy_debug_error_spec(s)),
        },
        connection_ok && device_found && lockdown_ok && (major_version matches Some(v) && v >= 17)
            ==> match modern_failure {
            None => r == Result::<(), Errors>::Ok(()),
            Some(s) => r == Result::<(), Errors>::Err(modern_debug_error_spec(s)),
        },
{
    if !connection_ok {
        return Err(Errors::NoConnection);
    }
    if !device_found {
        return Err(Errors::NoDevice);
    }
    if !lockdown_ok {
        return Err(Errors::CreateLockdown);
    }
    let major = match major_version {
        Some(v) => v,
        None => {
            return Err(Errors::GetLockdownValue);
        },
    };
    if major < 17 {
        legacy_debug_result(legacy_failure)
    } else {
        modern_debug_result(modern_failure)
    }
}

} // verus!
