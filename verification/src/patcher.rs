use crate::device::Device;
use crate::device::DeviceFirmware;
use crate::error::UpdaterError;
use crate::flash::command_matches;
use crate::flash::FlashCommand;
use crate::flash::Platform;
use crate::ports::first_new_from;
use crate::ports::lemma_no_new_name_no_port;
use crate::ports::lemma_single_new_name_resolves;
use crate::ports::locate_from;
use crate::ports::name_in;
use crate::ports::port_names;
use crate::ports::seq_views;
use crate::ports::collect_port_names;
use crate::ports::first_new_port;
use crate::ports::locate_device_port;
use crate::ports::PortDescriptor;
use vstd::prelude::*;

verus! {

/// The distinguished baud rate whose open signals the bootloader to reset
/// into update mode.
pub const DFU_BAUD: u32 = 1200;

/// How long the session waits for the host to re-enumerate the device after
/// the DFU trigger, in milliseconds.
pub const SETTLE_MILLIS: u64 = 3000;

/// The phase a patch session is in. Each phase names the event it waits for.
#[derive(Clone, Copy, Debug, PartialEq, Eq, Structural)]
pub enum PatchState {
    /// Nothing has happened yet.
    Idle,
    /// Waiting to hear whether the flashing tool is installed.
    CheckingTool,
    /// Waiting for the pre-activation port snapshot.
    Locating,
    /// Waiting for the outcome of the DFU trigger open.
    Triggering,
    /// Waiting for the settle delay to pass.
    Settling,
    /// Waiting for the post-activation port snapshot.
    Scanning,
    /// Waiting for the flashing tool to exit.
    Flashing,
    /// Waiting for the dry-run command report to be delivered.
    Reporting,
    /// Terminal success.
    Done,
    /// Terminal failure.
    Failed,
}

/// What the host did, handed back to the session.
#[derive(Debug)]
pub enum PatchEvent {
    /// Start the operation.
    Begin,
    /// The flashing tool is installed.
    ToolFound,
    /// The flashing tool could not be resolved.
    ToolMissing,
    /// A port enumeration finished with this snapshot.
    Ports(Vec<PortDescriptor>),
    /// A port enumeration failed with this message.
    PortsFailed(String),
    /// The DFU trigger open succeeded (and the handle was released).
    DfuTriggered,
    /// The DFU trigger open failed with this message.
    TriggerFailed(String),
    /// The settle delay has passed.
    Settled,
    /// The flashing tool exited with this status code.
    FlasherFinished(i32),
    /// The flashing tool could not be spawned.
    FlasherSpawnFailed(String),
    /// The dry-run command report was delivered to the operator.
    CommandReported,
}

/// What the host must do next.
#[derive(Debug)]
pub enum PatchAction {
    /// Resolve the flashing tool's executable.
    CheckTool,
    /// Enumerate the serial ports.
    ListPorts,
    /// Open the named port at the given baud rate and release the handle at
    /// once.
    TriggerDfu(String, u32),
    /// Sleep for the given number of milliseconds.
    Settle(u64),
    /// Spawn the flashing tool with this command and wait for it.
    RunFlasher(FlashCommand),
    /// Report this command to the operator without running it.
    ReportCommand(FlashCommand),
    /// The operation succeeded; stop.
    Succeed,
    /// The operation failed; stop.
    Fail(UpdaterError),
}

/// One patch session: the selected device and firmware, the operator's
/// optional port override, the port discovered during activation, the
/// pre-activation snapshot, and the dry-run flag.
#[derive(Debug)]
pub struct Patcher {
    pub device: Device,
    pub firmware: DeviceFirmware,
    pub custom_tty: Option<String>,
    pub dfu_tty: Option<String>,
    pub old_ports: Option<Vec<String>>,
    pub dry_run: bool,
    pub platform: Platform,
    pub state: PatchState,
}

/// The fields a step never touches: the selection, the platform and the
/// dry-run policy.
pub open spec fn session_frame(pre: Patcher, post: Patcher) -> bool {
    &&& post.device == pre.device
    &&& post.firmware == pre.firmware
    &&& post.platform == pre.platform
    &&& post.dry_run == pre.dry_run
}

/// The port-related fields, unchanged.
pub open spec fn ports_frame(pre: Patcher, post: Patcher) -> bool {
    &&& post.custom_tty == pre.custom_tty
    &&& post.dfu_tty == pre.dfu_tty
    &&& post.old_ports == pre.old_ports
}

/// The names of the pre-activation snapshot, or the empty set where none
/// was taken.
pub open spec fn snapshot_names(p: Patcher) -> Seq<Seq<char>> {
    match p.old_ports {
        Some(b) => seq_views(b@),
        None => Seq::empty(),
    }
}

/// The step that hands a resolved bootloader port to the Flash Invoker:
/// the command is built from the session's device and firmware with the
/// port flowing in unchanged, and is run — or, under dry run, only
/// reported.
pub open spec fn flash_dispatch(
    pre: Patcher,
    post: Patcher,
    r: PatchAction,
    port: Seq<char>,
) -> bool {
    &&& (post.dfu_tty matches Some(d) && d@ == port)
    &&& if pre.dry_run {
        post.state is Reporting && (r matches PatchAction::ReportCommand(c) && command_matches(
            c,
            pre.device,
            pre.firmware,
            port,
            pre.platform,
        ))
    } else {
        post.state is Flashing && (r matches PatchAction::RunFlasher(c) && command_matches(
            c,
            pre.device,
            pre.firmware,
            port,
            pre.platform,
        ))
    }
}

/// What happens once the tool gate is passed: with a port override the
/// locator and the activation machine are bypassed and the override flows
/// straight to the Flash Invoker; without one, detection begins with the
/// pre-activation snapshot.
pub open spec fn ready_spec(pre: Patcher, post: Patcher, r: PatchAction) -> bool {
    match pre.custom_tty {
        Some(t) => {
            &&& flash_dispatch(pre, post, r, t@)
            &&& post.custom_tty == pre.custom_tty
            &&& post.old_ports == pre.old_ports
        },
        None => {
            &&& post.state is Locating
            &&& ports_frame(pre, post)
            &&& r is ListPorts
        },
    }
}

/// A terminal failure caused by a serial-port error with message `m`.
pub open spec fn serial_fail(pre: Patcher, post: Patcher, r: PatchAction, m: Seq<char>) -> bool {
    &&& post.state is Failed
    &&& ports_frame(pre, post)
    &&& (r matches PatchAction::Fail(e) && (e matches UpdaterError::SerialPortError(s) && s@ == m))
}

/// The transition relation of the patch protocol: what one step does to the
/// session and which action it returns, for every state and event.
pub open spec fn step_spec(pre: Patcher, event: PatchEvent, post: Patcher, r: PatchAction) -> bool {
    &&& session_frame(pre, post)
    &&& match (pre.state, event) {
        (PatchState::Idle, PatchEvent::Begin) => {
            if pre.dry_run {
                // A dry run must succeed whether or not the tool exists, so
                // the tool gate is skipped.
                ready_spec(pre, post, r)
            } else {
                // The tool gate runs before the irreversible DFU trigger.
                &&& post.state is CheckingTool
                &&& ports_frame(pre, post)
                &&& r is CheckTool
            }
        },
        (PatchState::CheckingTool, PatchEvent::ToolFound) => ready_spec(pre, post, r),
        (PatchState::CheckingTool, PatchEvent::ToolMissing) => {
            &&& post.state is Failed
            &&& ports_frame(pre, post)
            &&& (r matches PatchAction::Fail(e) && e is ToolMissing)
        },
        (PatchState::Locating, PatchEvent::Ports(ports)) => {
            &&& (post.old_ports matches Some(b) && seq_views(b@) == port_names(ports@))
            &&& post.dfu_tty == pre.dfu_tty
            &&& match locate_from(ports@, 0) {
                Some(i) => {
                    &&& (post.custom_tty matches Some(t) && t@ == ports@[i].port_name@)
                    &&& post.state is Triggering
                    &&& (r matches PatchAction::TriggerDfu(p, baud) && p@ == ports@[i].port_name@
                        && baud == DFU_BAUD)
                },
                None => {
                    &&& post.custom_tty == pre.custom_tty
                    &&& post.state is Failed
                    &&& (r matches PatchAction::Fail(e) && e is B0xxNotFound)
                },
            }
        },
        (PatchState::Locating, PatchEvent::PortsFailed(m)) => serial_fail(pre, post, r, m@),
        (PatchState::Triggering, PatchEvent::DfuTriggered) => {
            &&& post.state is Settling
            &&& ports_frame(pre, post)
            &&& (r matches PatchAction::Settle(ms) && ms == SETTLE_MILLIS)
        },
        (PatchState::Triggering, PatchEvent::TriggerFailed(m)) => serial_fail(pre, post, r, m@),
        (PatchState::Settling, PatchEvent::Settled) => {
            &&& post.state is Scanning
            &&& ports_frame(pre, post)
            &&& r is ListPorts
        },
        (PatchState::Scanning, PatchEvent::Ports(after)) => {
            // The pre-activation snapshot is consumed by this diff, never
            // reused.
            &&& post.old_ports is None
            &&& post.custom_tty == pre.custom_tty
            &&& match first_new_from(snapshot_names(pre), after@, 0) {
                Some(i) => flash_dispatch(pre, post, r, after@[i].port_name@),
                None => {
                    &&& post.dfu_tty == pre.dfu_tty
                    &&& post.state is Failed
                    &&& (r matches PatchAction::Fail(e) && e is DfuTtyNotFound)
                },
            }
        },
        (PatchState::Scanning, PatchEvent::PortsFailed(m)) => serial_fail(pre, post, r, m@),
        (PatchState::Flashing, PatchEvent::FlasherFinished(code)) => {
            if code == 0 {
                &&& post.state is Done
                &&& ports_frame(pre, post)
                &&& r is Succeed
            } else {
                &&& post.state is Failed
                &&& ports_frame(pre, post)
                &&& (r matches PatchAction::Fail(e) && (e matches UpdaterError::ProcessFailure(c)
                    && c == code))
            }
        },
        (PatchState::Flashing, PatchEvent::FlasherSpawnFailed(m)) => {
            &&& post.state is Failed
            &&& ports_frame(pre, post)
            &&& (r matches PatchAction::Fail(e) && (e matches UpdaterError::IoError(s) && s@
                == m@))
        },
        (PatchState::Reporting, PatchEvent::CommandReported) => {
            &&& post.state is Done
            &&& ports_frame(pre, post)
            &&& r is Succeed
        },
        _ => {
            &&& post.state is Failed
            &&& ports_frame(pre, post)
            &&& (r matches PatchAction::Fail(e) && e is UnknownError)
        },
    }
}

impl Patcher {
    /// A fresh session for one device and firmware: no override, nothing
    /// discovered, no snapshot, not a dry run.
    pub fn new(device: Device, firmware: DeviceFirmware) -> (r: Self)
        ensures
            r.device == device,
            r.firmware == firmware,
            r.custom_tty is None,
            r.dfu_tty is None,
            r.old_ports is None,
            !r.dry_run,
            r.platform is Unix,
            r.state is Idle,
    {
        Patcher {
            device,
            firmware,
            custom_tty: None,
            dfu_tty: None,
            old_ports: None,
            dry_run: false,
            platform: Platform::Unix,
            state: PatchState::Idle,
        }
    }

    /// Sets the operator's port override; detection and activation will be
    /// bypassed.
    pub fn target_tty(&mut self, tty: String)
        ensures
            final(self).custom_tty == Some(tty),
            final(self).dfu_tty == old(self).dfu_tty,
            final(self).old_ports == old(self).old_ports,
            final(self).dry_run == old(self).dry_run,
            final(self).state == old(self).state,
            session_frame(*old(self), *final(self)),
    {
        self.custom_tty = Some(tty);
    }

    /// Puts the session in dry-run mode: the flasher command will only be
    /// reported, never run.
    pub fn enable_dry_run(&mut self)
        ensures
            final(self).dry_run,
            final(self).custom_tty == old(self).custom_tty,
            final(self).dfu_tty == old(self).dfu_tty,
            final(self).old_ports == old(self).old_ports,
            final(self).state == old(self).state,
            final(self).device == old(self).device,
            final(self).firmware == old(self).firmware,
            final(self).platform == old(self).platform,
    {
        self.dry_run = true;
    }

    /// Tells the session which platform family resolves the flashing tool.
    pub fn set_platform(&mut self, platform: Platform)
        ensures
            final(self).platform == platform,
            final(self).custom_tty == old(self).custom_tty,
            final(self).dfu_tty == old(self).dfu_tty,
            final(self).old_ports == old(self).old_ports,
            final(self).dry_run == old(self).dry_run,
            final(self).state == old(self).state,
            final(self).device == old(self).device,
            final(self).firmware == old(self).firmware,
    {
        self.platform = platform;
    }

    /// Hands a resolved bootloader port to the Flash Invoker.
    fn dispatch_flash(&mut self, port: String) -> (r: PatchAction)
        ensures
            session_frame(*old(self), *final(self)),
            flash_dispatch(*old(self), *final(self), r, port@),
            final(self).custom_tty == old(self).custom_tty,
            final(self).old_ports == old(self).old_ports,
    {
        self.dfu_tty = Some(port.clone());
        let cmd = FlashCommand::build(&self.device, &self.firmware, port, self.platform);
        if self.dry_run {
            self.state = PatchState::Reporting;
            PatchAction::ReportCommand(cmd)
        } else {
            self.state = PatchState::Flashing;
            PatchAction::RunFlasher(cmd)
        }
    }

    /// The branch after the tool gate: bypass on override, detect otherwise.
    fn ready(&mut self) -> (r: PatchAction)
        ensures
            session_frame(*old(self), *final(self)),
            ready_spec(*old(self), *final(self), r),
    {
        let override_port: Option<String> = match &self.custom_tty {
            Some(t) => Some(t.clone()),
            None => None,
        };
        match override_port {
            Some(port) => self.dispatch_flash(port),
            None => {
                self.state = PatchState::Locating;
                PatchAction::ListPorts
            },
        }
    }

    /// One step of the patch protocol: consumes the host's event, advances
    /// the session, and returns the next action for the host to perform.
    pub fn patch_step(&mut self, event: PatchEvent) -> (r: PatchAction)
        ensures
            step_spec(*old(self), event, *final(self), r),
    {
        match (self.state, event) {
            (PatchState::Idle, PatchEvent::Begin) => {
                if self.dry_run {
                    self.ready()
                } else {
                    self.state = PatchState::CheckingTool;
                    PatchAction::CheckTool
                }
            },
            (PatchState::CheckingTool, PatchEvent::ToolFound) => self.ready(),
            (PatchState::CheckingTool, PatchEvent::ToolMissing) => {
                self.state = PatchState::Failed;
                PatchAction::Fail(UpdaterError::ToolMissing)
            },
            (PatchState::Locating, PatchEvent::Ports(ports)) => {
                let names = collect_port_names(&ports);
                self.old_ports = Some(names);
                match locate_device_port(&ports) {
                    Some(i) => {
                        let port = ports[i].port_name.clone();
                        self.custom_tty = Some(port.clone());
                        self.state = PatchState::Triggering;
                        PatchAction::TriggerDfu(port, DFU_BAUD)
                    },
                    None => {
                        self.state = PatchState::Failed;
                        PatchAction::Fail(UpdaterError::B0xxNotFound)
                    },
                }
            },
            (PatchState::Locating, PatchEvent::PortsFailed(m)) => {
                self.state = PatchState::Failed;
                PatchAction::Fail(UpdaterError::SerialPortError(m))
            },
            (PatchState::Triggering, PatchEvent::DfuTriggered) => {
                self.state = PatchState::Settling;
                PatchAction::Settle(SETTLE_MILLIS)
            },
            (PatchState::Triggering, PatchEvent::TriggerFailed(m)) => {
                self.state = PatchState::Failed;
                PatchAction::Fail(UpdaterError::SerialPortError(m))
            },
            (PatchState::Settling, PatchEvent::Settled) => {
                self.state = PatchState::Scanning;
                PatchAction::ListPorts
            },
            (PatchState::Scanning, PatchEvent::Ports(after)) => {
                let before: Vec<String> = match self.old_ports.take() {
                    Some(b) => b,
                    None => Vec::new(),
                };
                proof {
                    if old(self).old_ports is None {
                        assert(seq_views(before@) =~= Seq::<Seq<char>>::empty());
                    }
                }
                match first_new_port(&before, &after) {
                    Some(i) => {
                        let port = after[i].port_name.clone();
                        self.dispatch_flash(port)
                    },
                    None => {
                        self.state = PatchState::Failed;
                        PatchAction::Fail(UpdaterError::DfuTtyNotFound)
                    },
                }
            },
            (PatchState::Scanning, PatchEvent::PortsFailed(m)) => {
                self.state = PatchState::Failed;
                PatchAction::Fail(UpdaterError::SerialPortError(m))
            },
            (PatchState::Flashing, PatchEvent::FlasherFinished(code)) => {
                if code == 0 {
                    self.state = PatchState::Done;
                    PatchAction::Succeed
                } else {
                    self.state = PatchState::Failed;
                    PatchAction::Fail(UpdaterError::ProcessFailure(code))
                }
            },
            (PatchState::Flashing, PatchEvent::FlasherSpawnFailed(m)) => {
                self.state = PatchState::Failed;
                PatchAction::Fail(UpdaterError::IoError(m))
            },
            (PatchState::Reporting, PatchEvent::CommandReported) => {
                self.state = PatchState::Done;
                PatchAction::Succeed
            },
            _ => {
                self.state = PatchState::Failed;
                PatchAction::Fail(UpdaterError::UnknownError)
            },
        }
    }
}

/// Law: when the post-activation snapshot brings no name that the
/// pre-activation snapshot lacked, the session fails with the
/// missing-bootloader-port error — it never silently succeeds.
pub proof fn lemma_no_new_port_means_failure(
    pre: Patcher,
    after: Vec<PortDescriptor>,
    post: Patcher,
    r: PatchAction,
)
    requires
        pre.state is Scanning,
        step_spec(pre, PatchEvent::Ports(after), post, r),
        forall|k: int|
            0 <= k < after@.len() ==> name_in(snapshot_names(pre), after@[k].port_name@),
    ensures
        post.state is Failed,
        r matches PatchAction::Fail(e) && e is DfuTtyNotFound,
{
    lemma_no_new_name_no_port(snapshot_names(pre), after@);
}

/// Law: when exactly one name `x` is new in the post-activation snapshot,
/// the session resolves the bootloader port to `x` and the flasher command
/// carries `x` as its port.
pub proof fn lemma_single_new_port_flows_to_flasher(
    pre: Patcher,
    after: Vec<PortDescriptor>,
    post: Patcher,
    r: PatchAction,
    x: Seq<char>,
)
    requires
        pre.state is Scanning,
        !pre.dry_run,
        step_spec(pre, PatchEvent::Ports(after), post, r),
        !name_in(snapshot_names(pre), x),
        exists|k: int| 0 <= k < after@.len() && after@[k].port_name@ == x,
        forall|k: int|
            0 <= k < after@.len() ==> name_in(snapshot_names(pre), after@[k].port_name@)
                || after@[k].port_name@ == x,
    ensures
        r matches PatchAction::RunFlasher(c) && c.port@ == x,
        post.dfu_tty matches Some(d) && d@ == x,
{
    lemma_single_new_name_resolves(snapshot_names(pre), after@, x);
}

/// Law: with an operator port override, the Device Locator and the DFU
/// Activator are bypassed entirely — the session never asks for a port
/// enumeration or a DFU trigger, and the override flows unchanged into the
/// flasher command.
pub proof fn lemma_override_bypasses_detection(
    p0: Patcher,
    p1: Patcher,
    r1: PatchAction,
    p2: Patcher,
    r2: PatchAction,
    t: Seq<char>,
)
    requires
        p0.state is Idle,
        p0.custom_tty matches Some(s) && s@ == t,
        step_spec(p0, PatchEvent::Begin, p1, r1),
        !p0.dry_run ==> step_spec(p1, PatchEvent::ToolFound, p2, r2),
    ensures
        !(r1 is ListPorts),
        !(r1 is TriggerDfu),
        p0.dry_run ==> (r1 matches PatchAction::ReportCommand(c) && c.port@ == t),
        !p0.dry_run ==> r1 is CheckTool,
        !p0.dry_run ==> !(r2 is ListPorts) && !(r2 is TriggerDfu),
        !p0.dry_run ==> (r2 matches PatchAction::RunFlasher(c) && c.port@ == t),
{
}

/// Law: a dry-run session never asks the host to spawn the flasher, at any
/// state and on any event, and it stays a dry run.
pub proof fn lemma_dry_run_never_spawns(
    pre: Patcher,
    event: PatchEvent,
    post: Patcher,
    r: PatchAction,
)
    requires
        pre.dry_run,
        step_spec(pre, event, post, r),
    ensures
        !(r is RunFlasher),
        post.dry_run,
{
}

} // verus!
