//! What the system is asked to do for an action. The requests are made
//! here; carrying them out is left to the caller.

use vstd::prelude::*;
use vstd::string::StringExecFns;
use crate::text::concat2;

verus! {

/// The kind of system the pipeline runs on.
#[derive(Debug, Clone, Copy, PartialEq, Eq, Structural)]
pub enum Platform {
    /// A system on which the actions can be carried out.
    Windows,
    /// Any other system.
    Other,
}

/// Why an action could not be carried out.
#[derive(Debug)]
pub enum WindowsActionError {
    /// A process could not be started; the system's message.
    Io(String),
    /// A system call failed; the system's message.
    Windows(String),
    /// The action cannot be carried out on this platform.
    Unsupported(&'static str),
}

/// An operation on the machine itself.
#[derive(Debug, Clone, Copy, PartialEq, Eq, Structural)]
pub enum SystemAction {
    /// Mute or unmute the volume.
    VolumeMute,
    /// Raise the volume one step.
    VolumeUp,
    /// Lower the volume one step.
    VolumeDown,
    /// Set the volume to a level in percent.
    VolumeSet(u8),
    /// Suspend the machine.
    Sleep,
    /// Shut the machine down.
    Shutdown,
    /// Restart the machine.
    Restart,
    /// Lock the session.
    Lock,
}

/// A program and the arguments it is started with.
#[derive(Debug, Clone)]
pub struct CommandLine {
    /// The program's name.
    pub program: String,
    /// The arguments, in order.
    pub args: Vec<String>,
}

/// One thing asked of the system.
#[derive(Debug, Clone)]
pub enum SystemRequest {
    /// Start a process and do not wait for it.
    Spawn(CommandLine),
    /// Suspend the machine.
    Suspend,
    /// Lock the session.
    Lock,
    /// Press and release the key with this virtual-key code.
    VolumeKey(u8),
    /// Set the master volume to this level in percent, at most 100.
    SetVolume(u8),
}

/// The virtual-key code of the key that mutes the volume.
pub const VK_VOLUME_MUTE: u8 = 0xad;

/// The virtual-key code of the key that lowers the volume.
pub const VK_VOLUME_DOWN: u8 = 0xae;

/// The virtual-key code of the key that raises the volume.
pub const VK_VOLUME_UP: u8 = 0xaf;

/// What `open_path` reports where the platform cannot open paths.
pub const OPEN_UNSUPPORTED: &'static str = "open path is only supported on Windows";

/// What `launch` reports where the platform cannot launch.
pub const LAUNCH_UNSUPPORTED: &'static str = "launch requires Windows";

/// What `execute_system` reports where the platform has no system
/// controls.
pub const SYSTEM_UNSUPPORTED: &'static str = "system controls available only on Windows";

/// The character sequences of a list of strings.
pub open spec fn arg_views(args: Seq<String>) -> Seq<Seq<char>> {
    args.map_values(|arg: String| arg@)
}

/// Whether `request` starts `program` with `args`.
pub open spec fn spawns(request: SystemRequest, program: Seq<char>, args: Seq<Seq<char>>) -> bool {
    request matches SystemRequest::Spawn(line) && line.program@ == program && arg_views(line.args@)
        == args
}

/// The arguments with which the shell starts `target` in a window of its
/// own: the target stands in double quotes, after an empty title.
pub open spec fn start_args(target: Seq<char>) -> Seq<Seq<char>> {
    seq!["/C"@, "start"@, ""@, "\""@ + target + "\""@]
}

/// The arguments with which the machine is shut down at once, or restarted
/// where `restart` holds.
pub open spec fn shutdown_args(restart: bool) -> Seq<Seq<char>> {
    seq![if restart {
        "/r"@
    } else {
        "/s"@
    }, "/t"@, "0"@]
}

/// Whether `result` refuses an action as unsupported, with `reason`.
pub open spec fn refused_with(
    result: Result<SystemRequest, WindowsActionError>,
    reason: Seq<char>,
) -> bool {
    result matches Err(WindowsActionError::Unsupported(text)) && text@ == reason
}

/// What is asked of the system for each action.
pub open spec fn request_fits(request: SystemRequest, action: SystemAction) -> bool {
    match action {
        SystemAction::Sleep => request == SystemRequest::Suspend,
        SystemAction::Shutdown => spawns(request, "shutdown"@, shutdown_args(false)),
        SystemAction::Restart => spawns(request, "shutdown"@, shutdown_args(true)),
        SystemAction::Lock => request == SystemRequest::Lock,
        SystemAction::VolumeMute => request == SystemRequest::VolumeKey(VK_VOLUME_MUTE),
        SystemAction::VolumeDown => request == SystemRequest::VolumeKey(VK_VOLUME_DOWN),
        SystemAction::VolumeUp => request == SystemRequest::VolumeKey(VK_VOLUME_UP),
        SystemAction::VolumeSet(level) => request == SystemRequest::SetVolume(
            if level > 100 {
                100u8
            } else {
                level
            },
        ),
    }
}

/// The command line that has the shell start `target`.
fn start_command(target: &str) -> (line: CommandLine)
    ensures
        line.program@ == "cmd"@,
        arg_views(line.args@) == start_args(target@),
{
    let mut quoted = String::from_str("\"");
    quoted.append(target);
    quoted.append("\"");
    let mut args: Vec<String> = Vec::new();
    args.push(String::from_str("/C"));
    args.push(String::from_str("start"));
    args.push(String::from_str(""));
    args.push(quoted);
    assert(arg_views(args@) =~= start_args(target@));
    CommandLine { program: String::from_str("cmd"), args }
}

/// The command line that shuts the machine down or restarts it.
fn shutdown_command(restart: bool) -> (line: CommandLine)
    ensures
        line.program@ == "shutdown"@,
        arg_views(line.args@) == shutdown_args(restart),
{
    let mut args: Vec<String> = Vec::new();
    if restart {
        args.push(String::from_str("/r"));
    } else {
        args.push(String::from_str("/s"));
    }
    args.push(String::from_str("/t"));
    args.push(String::from_str("0"));
    assert(arg_views(args@) =~= shutdown_args(restart));
    CommandLine { program: String::from_str("shutdown"), args }
}

/// What is asked of the system to open `path` with the program that the
/// system associates with it.
pub fn open_path(path: &str, platform: Platform) -> (result: Result<
    SystemRequest,
    WindowsActionError,
>)
    ensures
        platform == Platform::Windows ==> (result matches Ok(request) && spawns(
            request,
            "cmd"@,
            start_args(path@),
        )),
        platform != Platform::Windows ==> refused_with(result, OPEN_UNSUPPORTED@),
{
    match platform {
        Platform::Windows => Ok(SystemRequest::Spawn(start_command(path))),
        Platform::Other => Err(WindowsActionError::Unsupported(OPEN_UNSUPPORTED)),
    }
}

/// What is asked of the system to launch the application `app`.
pub fn launch(app: &str, platform: Platform) -> (result: Result<SystemRequest, WindowsActionError>)
    ensures
        platform == Platform::Windows ==> (result matches Ok(request) && spawns(
            request,
            "cmd"@,
            start_args(app@),
        )),
        platform != Platform::Windows ==> refused_with(result, LAUNCH_UNSUPPORTED@),
{
    match platform {
        Platform::Windows => Ok(SystemRequest::Spawn(start_command(app))),
        Platform::Other => Err(WindowsActionError::Unsupported(LAUNCH_UNSUPPORTED)),
    }
}

/// What is asked of the system to perform `action`.
pub fn execute_system(action: SystemAction, platform: Platform) -> (result: Result<
    SystemRequest,
    WindowsActionError,
>)
    ensures
        platform == Platform::Windows ==> (result matches Ok(request) && request_fits(
            request,
            action,
        )),
        platform != Platform::Windows ==> refused_with(result, SYSTEM_UNSUPPORTED@),
{
    match platform {
        Platform::Other => Err(WindowsActionError::Unsupported(SYSTEM_UNSUPPORTED)),
        Platform::Windows => Ok(
            match action {
                SystemAction::Sleep => SystemRequest::Suspend,
                SystemAction::Shutdown => SystemRequest::Spawn(shutdown_command(false)),
                SystemAction::Restart => SystemRequest::Spawn(shutdown_command(true)),
                SystemAction::Lock => SystemRequest::Lock,
                SystemAction::VolumeMute => SystemRequest::VolumeKey(VK_VOLUME_MUTE),
                SystemAction::VolumeDown => SystemRequest::VolumeKey(VK_VOLUME_DOWN),
                SystemAction::VolumeUp => SystemRequest::VolumeKey(VK_VOLUME_UP),
                SystemAction::VolumeSet(level) => SystemRequest::SetVolume(
                    if level > 100 {
                        100
                    } else {
                        level
                    },
                ),
            },
        ),
    }
}


impl WindowsActionError {
    /// The sentence that describes the error.
    pub open spec fn message_text(&self) -> Seq<char> {
        match *self {
            WindowsActionError::Io(err) => "io error: "@ + err@,
            WindowsActionError::Windows(err) => "win32 error: "@ + err@,
            WindowsActionError::Unsupported(reason) => "unsupported: "@ + reason@,
        }
    }

    /// Describes the error in one sentence.
    pub fn message(&self) -> (text: String)
        ensures
            text@ == self.message_text(),
    {
        match self {
            WindowsActionError::Io(err) => concat2("io error: ", err.as_str()),
            WindowsActionError::Windows(err) => concat2("win32 error: ", err.as_str()),
            WindowsActionError::Unsupported(reason) => concat2("unsupported: ", reason),
        }
    }
}

} // verus!
