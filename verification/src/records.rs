//! The plain data that the manager persists per unit: the record variants
//! that populate the named tables of the history registry, and their ghost
//! views.
//!
//! Every record is a closed set of tagged variants, so a table can hold any
//! of them while each facade module reads and writes only its own tags.

use vstd::prelude::*;

verus! {

/// The tag of a unit's type, fixed when the unit is first attached.
#[derive(Clone, Copy, Debug, PartialEq, Eq, Structural)]
pub enum UnitType {
    UnitService,
    UnitSocket,
    UnitTarget,
    UnitMount,
    UnitTypeInvalid,
}

impl UnitType {
    /// The stable numeric tag used inside frame markers.
    pub fn tag(&self) -> (r: u32)
        ensures
            *self is UnitService ==> r == 0,
            *self is UnitSocket ==> r == 1,
            *self is UnitTarget ==> r == 2,
            *self is UnitMount ==> r == 3,
            *self is UnitTypeInvalid ==> r == 4,
    {
        match self {
            UnitType::UnitService => 0,
            UnitType::UnitSocket => 1,
            UnitType::UnitTarget => 2,
            UnitType::UnitMount => 3,
            UnitType::UnitTypeInvalid => 4,
        }
    }
}

/// The load state of a unit: created `Stub` at registration, moved during
/// load-queue processing, never silently reset.
#[derive(Clone, Copy, Debug, PartialEq, Eq, Structural)]
pub enum UnitLoadState {
    Stub,
    Loading,
    Loaded,
    NotFound,
    Error,
    Merged,
}

/// The coarse, type-independent projection of a unit's detailed sub-state.
#[derive(Clone, Copy, Debug, PartialEq, Eq, Structural)]
pub enum UnitActiveState {
    InActive,
    Activating,
    Active,
    DeActivating,
    Failed,
}

/// The two states of a mount unit.
#[derive(Clone, Copy, Debug, PartialEq, Eq, Structural)]
pub enum MountState {
    Dead,
    Mounted,
}

/// The marker a mount manager leaves while its non-atomic action runs.
#[derive(Clone, Copy, Debug, PartialEq, Eq, Structural)]
pub enum MountReFrame {
    Monitor,
}

/// The unit-section fields of a unit's parsed configuration snapshot.
#[derive(Debug, PartialEq, Eq)]
pub struct UeConfigUnit {
    /// Free-form description shown to an operator.
    pub description: String,
    /// Documentation reference.
    pub documentation: String,
    /// Units this one wants.
    pub wants: Vec<String>,
    /// Units ordered before this one.
    pub after: Vec<String>,
    /// Units ordered after this one.
    pub before: Vec<String>,
    /// Units this one requires.
    pub requires: Vec<String>,
    /// Units this one is bound to.
    pub binds_to: Vec<String>,
    /// Units this one requires to already be active.
    pub requisite: Vec<String>,
    /// Units triggered when this one fails.
    pub on_failure: Vec<String>,
    /// Units triggered when this one succeeds.
    pub on_success: Vec<String>,
    /// Units this one is part of.
    pub part_of: Vec<String>,
    /// Units that conflict with this one.
    pub conflicts: Vec<String>,
}

/// The ghost shape of `UeConfigUnit`.
pub struct UeConfigUnitView {
    /// View of `description`.
    pub description: Seq<char>,
    /// View of `documentation`.
    pub documentation: Seq<char>,
    /// View of `wants`.
    pub wants: Seq<Seq<char>>,
    /// View of `after`.
    pub after: Seq<Seq<char>>,
    /// View of `before`.
    pub before: Seq<Seq<char>>,
    /// View of `requires`.
    pub requires: Seq<Seq<char>>,
    /// View of `binds_to`.
    pub binds_to: Seq<Seq<char>>,
    /// View of `requisite`.
    pub requisite: Seq<Seq<char>>,
    /// View of `on_failure`.
    pub on_failure: Seq<Seq<char>>,
    /// View of `on_success`.
    pub on_success: Seq<Seq<char>>,
    /// View of `part_of`.
    pub part_of: Seq<Seq<char>>,
    /// View of `conflicts`.
    pub conflicts: Seq<Seq<char>>,
}

impl View for UeConfigUnit {
    type V = UeConfigUnitView;

    open spec fn view(&self) -> UeConfigUnitView {
        UeConfigUnitView {
            description: self.description@,
            documentation: self.documentation@,
            wants: self.wants.deep_view(),
            after: self.after.deep_view(),
            before: self.before.deep_view(),
            requires: self.requires.deep_view(),
            binds_to: self.binds_to.deep_view(),
            requisite: self.requisite.deep_view(),
            on_failure: self.on_failure.deep_view(),
            on_success: self.on_success.deep_view(),
            part_of: self.part_of.deep_view(),
            conflicts: self.conflicts.deep_view(),
        }
    }
}

/// The install-section fields of a unit's parsed configuration snapshot.
#[derive(Debug, PartialEq, Eq)]
pub struct UeConfigInstall {
    /// Additional names for the unit.
    pub alias: Vec<String>,
    /// Targets that want the unit when it is enabled.
    pub wanted_by: Vec<String>,
    /// Targets that require the unit when it is enabled.
    pub required_by: Vec<String>,
    /// Units installed and removed together with this one.
    pub also: Vec<String>,
}

/// The ghost shape of `UeConfigInstall`.
pub struct UeConfigInstallView {
    /// View of `alias`.
    pub alias: Seq<Seq<char>>,
    /// View of `wanted_by`.
    pub wanted_by: Seq<Seq<char>>,
    /// View of `required_by`.
    pub required_by: Seq<Seq<char>>,
    /// View of `also`.
    pub also: Seq<Seq<char>>,
}

impl View for UeConfigInstall {
    type V = UeConfigInstallView;

    open spec fn view(&self) -> UeConfigInstallView {
        UeConfigInstallView {
            alias: self.alias.deep_view(),
            wanted_by: self.wanted_by.deep_view(),
            required_by: self.required_by.deep_view(),
            also: self.also.deep_view(),
        }
    }
}

impl UeConfigUnit {
    /// An empty unit section.
    pub fn new() -> (r: UeConfigUnit)
        ensures
            r@.description.len() == 0,
            r@.documentation.len() == 0,
            r@.wants.len() == 0,
            r@.after.len() == 0,
            r@.before.len() == 0,
            r@.requires.len() == 0,
            r@.binds_to.len() == 0,
            r@.requisite.len() == 0,
            r@.on_failure.len() == 0,
            r@.on_success.len() == 0,
            r@.part_of.len() == 0,
            r@.conflicts.len() == 0,
    {
        UeConfigUnit {
            description: String::new(),
            documentation: String::new(),
            wants: Vec::new(),
            after: Vec::new(),
            before: Vec::new(),
            requires: Vec::new(),
            binds_to: Vec::new(),
            requisite: Vec::new(),
            on_failure: Vec::new(),
            on_success: Vec::new(),
            part_of: Vec::new(),
            conflicts: Vec::new(),
        }
    }
}

impl UeConfigInstall {
    /// An empty install section.
    pub fn new() -> (r: UeConfigInstall)
        ensures
            r@.alias.len() == 0,
            r@.wanted_by.len() == 0,
            r@.required_by.len() == 0,
            r@.also.len() == 0,
    {
        UeConfigInstall { alias: Vec::new(), wanted_by: Vec::new(), required_by: Vec::new(), also: Vec::new() }
    }
}

/// A vector of owned strings copied element by element.
pub fn clone_strings(v: &Vec<String>) -> (r: Vec<String>)
    ensures
        r.deep_view() == v.deep_view(),
{
    let mut r: Vec<String> = Vec::new();
    let mut i: usize = 0;
    while i < v.len()
        invariant
            i <= v.len(),
            r@.len() == i,
            forall|j: int| 0 <= j < i ==> r@[j]@ == v@[j]@,
        decreases v.len() - i,
    {
        r.push(v[i].clone());
        i = i + 1;
    }
    proof {
        assert forall|j: int| 0 <= j < v@.len() implies r.deep_view()[j] == v.deep_view()[j] by {
            assert(r@[j]@ == v@[j]@);
        }
        assert(r.deep_view() =~= v.deep_view());
    }
    r
}

impl Clone for UeConfigUnit {
    /// A copy with the same view.
    fn clone(&self) -> (r: Self)
        ensures
            r@ == self@,
    {
        let r = UeConfigUnit {
            description: self.description.clone(),
            documentation: self.documentation.clone(),
            wants: clone_strings(&self.wants),
            after: clone_strings(&self.after),
            before: clone_strings(&self.before),
            requires: clone_strings(&self.requires),
            binds_to: clone_strings(&self.binds_to),
            requisite: clone_strings(&self.requisite),
            on_failure: clone_strings(&self.on_failure),
            on_success: clone_strings(&self.on_success),
            part_of: clone_strings(&self.part_of),
            conflicts: clone_strings(&self.conflicts),
        };
        r
    }
}

impl Clone for UeConfigInstall {
    /// A copy with the same view.
    fn clone(&self) -> (r: Self)
        ensures
            r@ == self@,
    {
        UeConfigInstall {
            alias: clone_strings(&self.alias),
            wanted_by: clone_strings(&self.wanted_by),
            required_by: clone_strings(&self.required_by),
            also: clone_strings(&self.also),
        }
    }
}

/// How a unit's processes are killed when it stops.
#[derive(Clone, Copy, Debug, PartialEq, Eq, Structural)]
pub enum KillMode {
    /// Kill nothing.
    KillNone,
    /// Kill the whole control group.
    KillControlGroup,
    /// Kill the main process only.
    KillProcess,
    /// Kill the main process, then the rest of the group.
    KillMixed,
}

/// The detailed state of a socket unit.
#[derive(Clone, Copy, Debug, PartialEq, Eq, Structural)]
pub enum SocketState {
    Dead,
    StartPre,
    StartChown,
    StartPost,
    Listening,
    Running,
    StopPre,
    StopPreSigterm,
    StopPreSigkill,
    StopPost,
    FinalSigterm,
    FinalSigkill,
    Failed,
    Cleaning,
    StateMax,
}

/// How a socket unit's last run ended.
#[derive(Clone, Copy, Debug, PartialEq, Eq, Structural)]
pub enum SocketResult {
    Success,
    FailureResources,
    FailureTimeout,
    FailureExitCode,
    FailureSignal,
    FailureCoreDump,
    FailureStartLimitHit,
    FailureTriggerLimitHit,
    FailureServiceStartLimitHit,
    ResultInvalid,
}

/// The stage a socket control command runs in.
#[derive(Clone, Copy, Debug, PartialEq, Eq, PartialOrd, Ord, Hash, Structural)]
pub enum SocketCommand {
    StartPre,
    StartPost,
    StopPre,
    StopPost,
}

/// What kind of endpoint a socket port is.
#[derive(Clone, Copy, Debug, PartialEq, Eq, Structural)]
pub enum PortType {
    Socket,
    Fifo,
    Special,
    Invalid,
}

/// The marker a socket manager leaves while its non-atomic action runs.
#[derive(Clone, Copy, Debug, PartialEq, Eq, Structural)]
pub enum SocketReFrame {
    /// Listening file descriptors are being handed out; the flag says
    /// whether they spread to the service.
    FdListen(bool),
}

impl DeepView for PortType {
    type V = PortType;

    open spec fn deep_view(&self) -> PortType {
        *self
    }
}

/// One command line a socket unit runs at a lifecycle stage.
#[derive(Debug, PartialEq, Eq)]
pub struct ExecCommand {
    /// The executable's path.
    pub path: String,
    /// Its arguments.
    pub argv: Vec<String>,
}

/// The ghost shape of `ExecCommand`.
pub struct ExecCommandView {
    /// View of `path`.
    pub path: Seq<char>,
    /// View of `argv`.
    pub argv: Seq<Seq<char>>,
}

impl DeepView for ExecCommand {
    type V = ExecCommandView;

    open spec fn deep_view(&self) -> ExecCommandView {
        ExecCommandView { path: self.path@, argv: self.argv.deep_view() }
    }
}

impl Clone for ExecCommand {
    /// A copy with the same view.
    fn clone(&self) -> (r: Self)
        ensures
            r.deep_view() == self.deep_view(),
    {
        ExecCommand { path: self.path.clone(), argv: clone_strings(&self.argv) }
    }
}

/// A vector of command lines copied element by element.
pub fn clone_cmds(v: &Vec<ExecCommand>) -> (r: Vec<ExecCommand>)
    ensures
        r.deep_view() == v.deep_view(),
{
    let mut r: Vec<ExecCommand> = Vec::new();
    let mut i: usize = 0;
    while i < v.len()
        invariant
            i <= v.len(),
            r@.len() == i,
            forall|j: int| 0 <= j < i ==> r@[j].deep_view() == v@[j].deep_view(),
        decreases v.len() - i,
    {
        r.push(v[i].clone());
        i = i + 1;
    }
    proof {
        assert forall|j: int| 0 <= j < v@.len() implies r.deep_view()[j] == v.deep_view()[j] by {
            assert(r@[j].deep_view() == v@[j].deep_view());
        }
        assert(r.deep_view() =~= v.deep_view());
    }
    r
}

/// An optional vector of command lines, copied.
pub fn clone_opt_cmds(v: &Option<Vec<ExecCommand>>) -> (r: Option<Vec<ExecCommand>>)
    ensures
        r.deep_view() == v.deep_view(),
{
    match v {
        Some(c) => Some(clone_cmds(c)),
        None => None,
    }
}

/// An optional vector of strings, copied.
pub fn clone_opt_strings(v: &Option<Vec<String>>) -> (r: Option<Vec<String>>)
    ensures
        r.deep_view() == v.deep_view(),
{
    match v {
        Some(c) => Some(clone_strings(c)),
        None => None,
    }
}

/// An optional string, copied.
pub fn clone_opt_string(v: &Option<String>) -> (r: Option<String>)
    ensures
        r.deep_view() == v.deep_view(),
    {
    match v {
        Some(c) => Some(c.clone()),
        None => None,
    }
}

/// The socket section of a socket unit's configuration snapshot.
#[derive(Debug, PartialEq, Eq)]
pub struct SectionSocket {
    /// Commands run before listening starts.
    pub exec_start_pre: Option<Vec<ExecCommand>>,
    /// Commands that change ownership of the sockets.
    pub exec_start_chown: Option<Vec<ExecCommand>>,
    /// Commands run after listening starts.
    pub exec_start_post: Option<Vec<ExecCommand>>,
    /// Commands run before listening stops.
    pub exec_stop_pre: Option<Vec<ExecCommand>>,
    /// Commands run after listening stops.
    pub exec_stop_post: Option<Vec<ExecCommand>>,
    /// Stream addresses to listen on.
    pub listen_stream: Option<Vec<String>>,
    /// Datagram addresses to listen on.
    pub listen_datagram: Option<Vec<String>>,
    /// Netlink families to listen on.
    pub listen_netlink: Option<Vec<String>>,
    /// Sequential-packet addresses to listen on.
    pub listen_sequential_packet: Option<Vec<String>>,
    /// Fifo paths to listen on.
    pub listen_fifo: Option<Vec<String>>,
    /// Special files to listen on.
    pub listen_special: Option<Vec<String>>,
    /// Whether every connection spawns its own service instance.
    pub accept: bool,
    /// Whether pending data is flushed when the socket stops.
    pub flush_pending: bool,
    /// The service the socket activates.
    pub service: Option<String>,
    /// Requested receive-buffer size.
    pub receive_buffer: Option<u64>,
    /// Requested send-buffer size.
    pub send_buffer: Option<u64>,
    /// Whether credentials are passed.
    pub pass_credentials: Option<bool>,
    /// Whether packet info is passed.
    pub pass_packet_info: Option<bool>,
    /// Whether keep-alive probing is on.
    pub keep_alive: Option<bool>,
    /// Idle seconds before the first keep-alive probe.
    pub keep_alive_time_sec: Option<u32>,
    /// Seconds between keep-alive probes.
    pub keep_alive_interval_sec: Option<u32>,
    /// Unacknowledged keep-alive probes before the peer counts as gone.
    pub keep_alive_probes: Option<u32>,
    /// Whether broadcast is allowed.
    pub broadcast: Option<bool>,
    /// Whether sockets are removed when the unit stops.
    pub remove_on_stop: bool,
    /// Extra paths symlinked to the first listening socket.
    pub symlinks: Option<Vec<String>>,
    /// Whether security context is passed.
    pub pass_security: Option<bool>,
    /// The file mode of created sockets.
    pub socket_mode: u32,
    /// The owning user of created sockets.
    pub socket_user: String,
    /// The owning group of created sockets.
    pub socket_group: String,
    /// How the unit's processes are killed.
    pub kill_mode: KillMode,
    /// The signal used to kill.
    pub kill_signal: String,
}

/// The ghost shape of `SectionSocket`.
pub struct SectionSocketView {
    /// View of `exec_start_pre`.
    pub exec_start_pre: Option<Seq<ExecCommandView>>,
    /// View of `exec_start_chown`.
    pub exec_start_chown: Option<Seq<ExecCommandView>>,
    /// View of `exec_start_post`.
    pub exec_start_post: Option<Seq<ExecCommandView>>,
    /// View of `exec_stop_pre`.
    pub exec_stop_pre: Option<Seq<ExecCommandView>>,
    /// View of `exec_stop_post`.
    pub exec_stop_post: Option<Seq<ExecCommandView>>,
    /// View of `listen_stream`.
    pub listen_stream: Option<Seq<Seq<char>>>,
    /// View of `listen_datagram`.
    pub listen_datagram: Option<Seq<Seq<char>>>,
    /// View of `listen_netlink`.
    pub listen_netlink: Option<Seq<Seq<char>>>,
    /// View of `listen_sequential_packet`.
    pub listen_sequential_packet: Option<Seq<Seq<char>>>,
    /// View of `listen_fifo`.
    pub listen_fifo: Option<Seq<Seq<char>>>,
    /// View of `listen_special`.
    pub listen_special: Option<Seq<Seq<char>>>,
    /// View of `accept`.
    pub accept: bool,
    /// View of `flush_pending`.
    pub flush_pending: bool,
    /// View of `service`.
    pub service: Option<Seq<char>>,
    /// View of `receive_buffer`.
    pub receive_buffer: Option<u64>,
    /// View of `send_buffer`.
    pub send_buffer: Option<u64>,
    /// View of `pass_credentials`.
    pub pass_credentials: Option<bool>,
    /// View of `pass_packet_info`.
    pub pass_packet_info: Option<bool>,
    /// View of `keep_alive`.
    pub keep_alive: Option<bool>,
    /// View of `keep_alive_time_sec`.
    pub keep_alive_time_sec: Option<u32>,
    /// View of `keep_alive_interval_sec`.
    pub keep_alive_interval_sec: Option<u32>,
    /// View of `keep_alive_probes`.
    pub keep_alive_probes: Option<u32>,
    /// View of `broadcast`.
    pub broadcast: Option<bool>,
    /// View of `remove_on_stop`.
    pub remove_on_stop: bool,
    /// View of `symlinks`.
    pub symlinks: Option<Seq<Seq<char>>>,
    /// View of `pass_security`.
    pub pass_security: Option<bool>,
    /// View of `socket_mode`.
    pub socket_mode: u32,
    /// View of `socket_user`.
    pub socket_user: Seq<char>,
    /// View of `socket_group`.
    pub socket_group: Seq<char>,
    /// View of `kill_mode`.
    pub kill_mode: KillMode,
    /// View of `kill_signal`.
    pub kill_signal: Seq<char>,
}

impl View for SectionSocket {
    type V = SectionSocketView;

    open spec fn view(&self) -> SectionSocketView {
        SectionSocketView {
            exec_start_pre: self.exec_start_pre.deep_view(),
            exec_start_chown: self.exec_start_chown.deep_view(),
            exec_start_post: self.exec_start_post.deep_view(),
            exec_stop_pre: self.exec_stop_pre.deep_view(),
            exec_stop_post: self.exec_stop_post.deep_view(),
            listen_stream: self.listen_stream.deep_view(),
            listen_datagram: self.listen_datagram.deep_view(),
            listen_netlink: self.listen_netlink.deep_view(),
            listen_sequential_packet: self.listen_sequential_packet.deep_view(),
            listen_fifo: self.listen_fifo.deep_view(),
            listen_special: self.listen_special.deep_view(),
            accept: self.accept,
            flush_pending: self.flush_pending,
            service: self.service.deep_view(),
            receive_buffer: self.receive_buffer,
            send_buffer: self.send_buffer,
            pass_credentials: self.pass_credentials,
            pass_packet_info: self.pass_packet_info,
            keep_alive: self.keep_alive,
            keep_alive_time_sec: self.keep_alive_time_sec,
            keep_alive_interval_sec: self.keep_alive_interval_sec,
            keep_alive_probes: self.keep_alive_probes,
            broadcast: self.broadcast,
            remove_on_stop: self.remove_on_stop,
            symlinks: self.symlinks.deep_view(),
            pass_security: self.pass_security,
            socket_mode: self.socket_mode,
            socket_user: self.socket_user@,
            socket_group: self.socket_group@,
            kill_mode: self.kill_mode,
            kill_signal: self.kill_signal@,
        }
    }
}

impl Clone for SectionSocket {
    /// A copy with the same view.
    fn clone(&self) -> (r: Self)
        ensures
            r@ == self@,
    {
        SectionSocket {
            exec_start_pre: clone_opt_cmds(&self.exec_start_pre),
            exec_start_chown: clone_opt_cmds(&self.exec_start_chown),
            exec_start_post: clone_opt_cmds(&self.exec_start_post),
            exec_stop_pre: clone_opt_cmds(&self.exec_stop_pre),
            exec_stop_post: clone_opt_cmds(&self.exec_stop_post),
            listen_stream: clone_opt_strings(&self.listen_stream),
            listen_datagram: clone_opt_strings(&self.listen_datagram),
            listen_netlink: clone_opt_strings(&self.listen_netlink),
            listen_sequential_packet: clone_opt_strings(&self.listen_sequential_packet),
            listen_fifo: clone_opt_strings(&self.listen_fifo),
            listen_special: clone_opt_strings(&self.listen_special),
            accept: self.accept,
            flush_pending: self.flush_pending,
            service: clone_opt_string(&self.service),
            receive_buffer: self.receive_buffer,
            send_buffer: self.send_buffer,
            pass_credentials: self.pass_credentials,
            pass_packet_info: self.pass_packet_info,
            keep_alive: self.keep_alive,
            keep_alive_time_sec: self.keep_alive_time_sec,
            keep_alive_interval_sec: self.keep_alive_interval_sec,
            keep_alive_probes: self.keep_alive_probes,
            broadcast: self.broadcast,
            remove_on_stop: self.remove_on_stop,
            symlinks: clone_opt_strings(&self.symlinks),
            pass_security: self.pass_security,
            socket_mode: self.socket_mode,
            socket_user: self.socket_user.clone(),
            socket_group: self.socket_group.clone(),
            kill_mode: self.kill_mode,
            kill_signal: self.kill_signal.clone(),
        }
    }
}

/// A socket unit's persisted configuration record.
#[derive(Debug, PartialEq, Eq)]
pub struct SocketReConf {
    /// The socket section.
    pub socket: SectionSocket,
    /// The service the socket activates.
    pub service: Option<String>,
}

/// The ghost shape of `SocketReConf`.
pub struct SocketReConfView {
    /// View of `socket`.
    pub socket: SectionSocketView,
    /// View of `service`.
    pub service: Option<Seq<char>>,
}

impl View for SocketReConf {
    type V = SocketReConfView;

    open spec fn view(&self) -> SocketReConfView {
        SocketReConfView { socket: self.socket@, service: self.service.deep_view() }
    }
}

impl SocketReConf {
    /// A record from a configuration snapshot.
    pub fn new(socketr: &SectionSocket, service: Option<String>) -> (r: SocketReConf)
        ensures
            r@.socket == socketr@,
            r@.service == service.deep_view(),
    {
        SocketReConf { socket: socketr.clone(), service }
    }
}

impl Clone for SocketReConf {
    /// A copy with the same view.
    fn clone(&self) -> (r: Self)
        ensures
            r@ == self@,
    {
        SocketReConf { socket: self.socket.clone(), service: clone_opt_string(&self.service) }
    }
}

/// A socket unit's persisted runtime record.
#[derive(Debug, PartialEq, Eq)]
pub struct SocketReMng {
    /// The detailed state.
    pub state: SocketState,
    /// How the last run ended.
    pub result: SocketResult,
    /// The control process, if one runs.
    pub control_pid: Option<i32>,
    /// The stage the control command belongs to.
    pub control_cmd_type: Option<SocketCommand>,
    /// How many control commands remain.
    pub control_cmd_len: usize,
    /// How many connections were refused.
    pub refused: i32,
    /// The listening ports: kind, address and file descriptor.
    pub ports: Vec<(PortType, String, i32)>,
}

/// The ghost shape of `SocketReMng`.
pub struct SocketReMngView {
    /// View of `state`.
    pub state: SocketState,
    /// View of `result`.
    pub result: SocketResult,
    /// View of `control_pid`.
    pub control_pid: Option<i32>,
    /// View of `control_cmd_type`.
    pub control_cmd_type: Option<SocketCommand>,
    /// View of `control_cmd_len`.
    pub control_cmd_len: usize,
    /// View of `refused`.
    pub refused: i32,
    /// View of `ports`.
    pub ports: Seq<(PortType, Seq<char>, i32)>,
}

impl View for SocketReMng {
    type V = SocketReMngView;

    open spec fn view(&self) -> SocketReMngView {
        SocketReMngView {
            state: self.state,
            result: self.result,
            control_pid: self.control_pid,
            control_cmd_type: self.control_cmd_type,
            control_cmd_len: self.control_cmd_len,
            refused: self.refused,
            ports: self.ports.deep_view(),
        }
    }
}

/// A vector of ports copied element by element.
pub fn clone_ports(v: &Vec<(PortType, String, i32)>) -> (r: Vec<(PortType, String, i32)>)
    ensures
        r.deep_view() == v.deep_view(),
{
    let mut r: Vec<(PortType, String, i32)> = Vec::new();
    let mut i: usize = 0;
    while i < v.len()
        invariant
            i <= v.len(),
            r@.len() == i,
            forall|j: int| 0 <= j < i ==> r@[j].deep_view() == v@[j].deep_view(),
        decreases v.len() - i,
    {
        let p = &v[i];
        r.push((p.0, p.1.clone(), p.2));
        i = i + 1;
    }
    proof {
        assert forall|j: int| 0 <= j < v@.len() implies r.deep_view()[j] == v.deep_view()[j] by {
            assert(r@[j].deep_view() == v@[j].deep_view());
        }
        assert(r.deep_view() =~= v.deep_view());
    }
    r
}

impl SocketReMng {
    /// A record from the pieces of a socket's runtime state.
    pub fn new(
        state: SocketState,
        result: SocketResult,
        control_pid: Option<i32>,
        control_cmd_type: Option<SocketCommand>,
        control_cmd_len: usize,
        refused: i32,
        ports: Vec<(PortType, String, i32)>,
    ) -> (r: SocketReMng)
        ensures
            r@.state == state,
            r@.result == result,
            r@.control_pid == control_pid,
            r@.control_cmd_type == control_cmd_type,
            r@.control_cmd_len == control_cmd_len,
            r@.refused == refused,
            r@.ports == ports.deep_view(),
    {
        SocketReMng {
            state,
            result,
            control_pid,
            control_cmd_type,
            control_cmd_len,
            refused,
            ports,
        }
    }
}

impl Clone for SocketReMng {
    /// A copy with the same view.
    fn clone(&self) -> (r: Self)
        ensures
            r@ == self@,
    {
        SocketReMng {
            state: self.state,
            result: self.result,
            control_pid: self.control_pid,
            control_cmd_type: self.control_cmd_type,
            control_cmd_len: self.control_cmd_len,
            refused: self.refused,
            ports: clone_ports(&self.ports),
        }
    }
}

/// One persisted record: the closed set of everything any table may hold.
#[derive(Debug, PartialEq, Eq)]
pub enum Record {
    /// The unit's type tag, written once at first attach.
    Base(UnitType),
    /// The unit's load state.
    Load(UnitLoadState),
    /// The unit's configuration snapshot.
    Conf(UeConfigUnit, UeConfigInstall),
    /// The unit's resource-control scope path.
    Cgroup(String),
    /// The process ids the unit currently owns.
    Child(Vec<i32>),
    /// The pending-process-state mask: which queues the unit sits in.
    Pps(u32),
    /// A mount unit's mount state.
    MountMng(MountState),
    /// The mount manager's in-flight action marker.
    MountFrame(MountReFrame),
    /// A socket unit's configuration record.
    SockConf(SocketReConf),
    /// A socket unit's runtime record.
    SockMng(SocketReMng),
    /// The socket manager's in-flight action marker.
    SockFrame(SocketReFrame),
    /// The coordinator's marker: the unit the in-flight action concerns.
    LastUnit(String),
    /// The coordinator's marker: the frame tags of the in-flight action.
    LastFrame(u32, Option<u32>, Option<u32>),
}

/// The ghost shape of a `Record`.
pub enum RecordView {
    /// View of `Record::Base`.
    Base(UnitType),
    /// View of `Record::Load`.
    Load(UnitLoadState),
    /// View of `Record::Conf`.
    Conf(UeConfigUnitView, UeConfigInstallView),
    /// View of `Record::Cgroup`.
    Cgroup(Seq<char>),
    /// View of `Record::Child`.
    Child(Seq<i32>),
    /// View of `Record::Pps`.
    Pps(u32),
    /// View of `Record::MountMng`.
    MountMng(MountState),
    /// View of `Record::MountFrame`.
    MountFrame(MountReFrame),
    /// View of `Record::SockConf`.
    SockConf(SocketReConfView),
    /// View of `Record::SockMng`.
    SockMng(SocketReMngView),
    /// View of `Record::SockFrame`.
    SockFrame(SocketReFrame),
    /// View of `Record::LastUnit`.
    LastUnit(Seq<char>),
    /// View of `Record::LastFrame`.
    LastFrame(u32, Option<u32>, Option<u32>),
}

impl View for Record {
    type V = RecordView;

    open spec fn view(&self) -> RecordView {
        match self {
            Record::Base(t) => RecordView::Base(*t),
            Record::Load(s) => RecordView::Load(*s),
            Record::Conf(u, i) => RecordView::Conf(u@, i@),
            Record::Cgroup(p) => RecordView::Cgroup(p@),
            Record::Child(pids) => RecordView::Child(pids@),
            Record::Pps(m) => RecordView::Pps(*m),
            Record::MountMng(s) => RecordView::MountMng(*s),
            Record::MountFrame(f) => RecordView::MountFrame(*f),
            Record::SockConf(c) => RecordView::SockConf(c@),
            Record::SockMng(m) => RecordView::SockMng(m@),
            Record::SockFrame(f) => RecordView::SockFrame(*f),
            Record::LastUnit(u) => RecordView::LastUnit(u@),
            Record::LastFrame(a, b, c) => RecordView::LastFrame(*a, *b, *c),
        }
    }
}

impl Clone for Record {
    /// A copy with the same view.
    fn clone(&self) -> (r: Self)
        ensures
            r@ == self@,
    {
        match self {
            Record::Base(t) => Record::Base(*t),
            Record::Load(s) => Record::Load(*s),
            Record::Conf(u, i) => Record::Conf(u.clone(), i.clone()),
            Record::Cgroup(p) => Record::Cgroup(p.clone()),
            Record::Child(pids) => {
                let mut c: Vec<i32> = Vec::new();
                let mut i: usize = 0;
                while i < pids.len()
                    invariant
                        i <= pids.len(),
                        c@ =~= pids@.subrange(0, i as int),
                    decreases pids.len() - i,
                {
                    c.push(pids[i]);
                    i = i + 1;
                }
                proof {
                    assert(c@ =~= pids@);
                }
                Record::Child(c)
            }
            Record::Pps(m) => Record::Pps(*m),
            Record::MountMng(s) => Record::MountMng(*s),
            Record::MountFrame(f) => Record::MountFrame(*f),
            Record::SockConf(c) => Record::SockConf(c.clone()),
            Record::SockMng(m) => Record::SockMng(m.clone()),
            Record::SockFrame(f) => Record::SockFrame(*f),
            Record::LastUnit(u) => Record::LastUnit(u.clone()),
            Record::LastFrame(a, b, c) => Record::LastFrame(*a, *b, *c),
        }
    }
}

} // verus!
