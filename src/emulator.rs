use vstd::prelude::*;

use crate::app_manager::{app_error_text, AppError, AppManager};
use crate::ports::{
    allocate_outcome, port_error_text, valid_console_port, PortError, PortManager,
};
use crate::process::{
    arg_views, exited_ok, failure_of, failure_text, lossy_text, utf8_lossy, CommandLine,
    ProcessOutcome,
};
use crate::text::{contains_token, decimal, decimal_string, has_token};

verus! {

#[derive(Debug)]
pub enum EmulatorError {
    StartError(String),
    StopError(String),
    StatusCheckError(String),
    AdbError(String),
    PortError(PortError),
    AppError(AppError),
    DbError(String),
    /// An application operation on an instance with no controller attached.
    NotStarted,
    /// `start` on an instance that is already running.
    AlreadyRunning,
    /// An external command did not end within its time limit.
    Timeout,
}

/// The text that describes an instance error.
pub open spec fn emulator_error_text(e: EmulatorError) -> Seq<char> {
    match e {
        EmulatorError::StartError(t) => "Failed to start emulator: "@ + t@,
        EmulatorError::StopError(t) => "Failed to stop emulator: "@ + t@,
        EmulatorError::StatusCheckError(t) => "Failed to check emulator status: "@ + t@,
        EmulatorError::AdbError(t) => "ADB command failed: "@ + t@,
        EmulatorError::PortError(p) => "Port error: "@ + port_error_text(p),
        EmulatorError::AppError(a) => "App error: "@ + app_error_text(a),
        EmulatorError::DbError(t) => "Database error: "@ + t@,
        EmulatorError::NotStarted => "Emulator not started"@,
        EmulatorError::AlreadyRunning => "Emulator already running"@,
        EmulatorError::Timeout => "Emulator command timed out"@,
    }
}

impl EmulatorError {
    pub fn message(&self) -> (r: String)
        ensures
            r@ == emulator_error_text(*self),
    {
        match self {
            EmulatorError::StartError(t) => "Failed to start emulator: ".to_owned().concat(t.as_str()),
            EmulatorError::StopError(t) => "Failed to stop emulator: ".to_owned().concat(t.as_str()),
            EmulatorError::StatusCheckError(t) => "Failed to check emulator status: ".to_owned().concat(
                t.as_str(),
            ),
            EmulatorError::AdbError(t) => "ADB command failed: ".to_owned().concat(t.as_str()),
            EmulatorError::PortError(p) => "Port error: ".to_owned().concat(p.message().as_str()),
            EmulatorError::AppError(a) => "App error: ".to_owned().concat(a.message().as_str()),
            EmulatorError::DbError(t) => "Database error: ".to_owned().concat(t.as_str()),
            EmulatorError::NotStarted => "Emulator not started".to_owned(),
            EmulatorError::AlreadyRunning => "Emulator already running".to_owned(),
            EmulatorError::Timeout => "Emulator command timed out".to_owned(),
        }
    }
}

/// Where an instance stands in its lifecycle. The passage through starting and
/// stopping is the run of the command that `start_command` or `kill_command` gives.
#[derive(Debug, Clone, Copy, PartialEq, Eq, Structural)]
pub enum InstanceState {
    /// Ports allocated, no process launched by this handle.
    Created,
    /// The runtime process was launched and a controller is attached.
    Running,
    /// The runtime process was killed and the ports released.
    Stopped,
}

/// The stored form of an instance.
#[derive(Debug)]
pub struct EmulatorConfig {
    pub name: String,
    pub console_port: u16,
    pub adb_port: u16,
    pub created_at: String,
    pub updated_at: String,
}

/// The abstract value of an instance handle.
pub ghost struct InstanceView {
    pub name: Seq<char>,
    pub port: u16,
    pub adb_port: u16,
    /// The device serial the attached controller addresses, if one is attached.
    pub controller: Option<Seq<char>>,
    pub state: InstanceState,
}

/// The serial under which the bridge tool lists the instance on console port `port`.
pub open spec fn device_serial(port: u16) -> Seq<char> {
    "emulator-"@ + decimal(port as nat)
}

/// A handle with identity `name` on console port `port`, with nothing attached.
pub open spec fn fresh_view(name: Seq<char>, port: u16) -> InstanceView {
    InstanceView {
        name,
        port,
        adb_port: (port + 1) as u16,
        controller: None,
        state: InstanceState::Created,
    }
}

/// A stored record keeps the port rule: an even console port, with the bridge port
/// right after it. The range the ports were allocated from may since have changed,
/// so it is not consulted.
pub open spec fn record_ok(c: EmulatorConfig) -> bool {
    c.console_port % 2 == 0 && c.adb_port == c.console_port + 1
}

/// The error that reconstructing from a record that breaks `record_ok` gives.
pub open spec fn record_error(c: EmulatorConfig) -> PortError {
    if c.console_port % 2 != 0 {
        PortError::InvalidPort(c.console_port)
    } else {
        PortError::InvalidPort(c.adb_port)
    }
}

/// One virtual device instance: its identity, its ports, and the controller that a
/// successful start attaches.
#[derive(Debug)]
pub struct Emulator {
    name: String,
    port: u16,
    adb_port: u16,
    app_manager: Option<AppManager>,
    state: InstanceState,
}

impl View for Emulator {
    type V = InstanceView;

    closed spec fn view(&self) -> InstanceView {
        InstanceView {
            name: self.name@,
            port: self.port,
            adb_port: self.adb_port,
            controller: match self.app_manager {
                Some(m) => Some(m@),
                None => None,
            },
            state: self.state,
        }
    }
}

/// What every instance handle satisfies: an even console port with its bridge port
/// right after it, and a controller, bound to the instance's serial, exactly while
/// running.
pub open spec fn instance_ok(v: InstanceView) -> bool {
    &&& v.port % 2 == 0
    &&& v.adb_port == v.port + 1
    &&& (v.state == InstanceState::Running <==> v.controller is Some)
    &&& v.controller is Some ==> v.controller->0 == device_serial(v.port)
}

impl Emulator {
    pub fn new(name: String, port: u16) -> (r: Self)
        requires
            port % 2 == 0,
        ensures
            r@ == fresh_view(name@, port),
            instance_ok(r@),
    {
        Emulator { name, port, adb_port: port + 1, app_manager: None, state: InstanceState::Created }
    }

    /// Rebuilds a handle from its stored record. No controller is attached, whatever
    /// the state of the runtime process.
    pub fn from_config(config: EmulatorConfig) -> (r: Result<Self, EmulatorError>)
        ensures
            record_ok(config) ==> (r matches Ok(e) && e@ == fresh_view(
                config.name@,
                config.console_port,
            ) && instance_ok(e@)),
            !record_ok(config) ==> (r matches Err(EmulatorError::PortError(p)) && p
                == record_error(config)),
    {
        if config.console_port % 2 != 0 {
            return Err(EmulatorError::PortError(PortError::InvalidPort(config.console_port)));
        }
        if config.adb_port != config.console_port + 1 {
            return Err(EmulatorError::PortError(PortError::InvalidPort(config.adb_port)));
        }
        Ok(Emulator::new(config.name, config.console_port))
    }

    /// The record to store for this handle, stamped with `now`.
    pub fn to_config_at(&self, now: String) -> (r: EmulatorConfig)
        ensures
            r.name@ == self@.name,
            r.console_port == self@.port,
            r.adb_port == self@.adb_port,
            r.created_at@ == now@,
            r.updated_at@ == now@,
    {
        EmulatorConfig {
            name: self.name.clone(),
            console_port: self.port,
            adb_port: self.adb_port,
            created_at: now.clone(),
            updated_at: now,
        }
    }

    pub fn name(&self) -> (r: &str)
        ensures
            r@ == self@.name,
    {
        self.name.as_str()
    }

    /// The console port.
    pub fn port(&self) -> (r: u16)
        ensures
            r == self@.port,
    {
        self.port
    }

    /// The bridge port.
    pub fn adb_port(&self) -> (r: u16)
        ensures
            r == self@.adb_port,
    {
        self.adb_port
    }

    pub fn state(&self) -> (r: InstanceState)
        ensures
            r == self@.state,
    {
        self.state
    }

    /// The serial under which the bridge tool knows this instance.
    pub fn device_serial(&self) -> (r: String)
        ensures
            r@ == device_serial(self@.port),
    {
        "emulator-".to_owned().concat(decimal_string(self.port).as_str())
    }

    /// The attached controller; application operations go through it.
    pub fn app_manager(&self) -> (r: Result<&AppManager, EmulatorError>)
        ensures
            match self@.controller {
                Some(serial) => r matches Ok(m) && m@ == serial,
                None => r matches Err(EmulatorError::NotStarted),
            },
    {
        match &self.app_manager {
            Some(m) => Ok(m),
            None => Err(EmulatorError::NotStarted),
        }
    }

    /// The command that launches the runtime headless on the console port; refused
    /// while the instance is running.
    pub fn start_command(&self) -> (r: Result<CommandLine, EmulatorError>)
        ensures
            self@.state == InstanceState::Running ==> r matches Err(EmulatorError::AlreadyRunning),
            self@.state != InstanceState::Running ==> (r matches Ok(c) && c.program@ == "emulator"@
                && arg_views(c.args@) == seq![
                "-avd"@,
                self@.name,
                "-port"@,
                decimal(self@.port as nat),
                "-no-window"@,
            ]),
    {
        if let InstanceState::Running = self.state {
            return Err(EmulatorError::AlreadyRunning);
        }
        let args = vec![
            "-avd".to_owned(),
            self.name.clone(),
            "-port".to_owned(),
            decimal_string(self.port),
            "-no-window".to_owned(),
        ];
        assert(arg_views(args@) =~= seq![
            "-avd"@,
            self@.name,
            "-port"@,
            decimal(self@.port as nat),
            "-no-window"@,
        ]);
        Ok(CommandLine { program: "emulator".to_owned(), args })
    }

    /// Applies the run of `start_command`. Success attaches a controller bound to
    /// the instance's serial; any failure leaves the handle as it was, its ports
    /// still allocated.
    pub fn finish_start(&mut self, outcome: &ProcessOutcome) -> (r: Result<(), EmulatorError>)
        requires
            instance_ok(old(self)@),
            old(self)@.state != InstanceState::Running,
        ensures
            instance_ok(final(self)@),
            outcome is TimedOut ==> (r matches Err(EmulatorError::Timeout) && final(self)@ == old(
                self,
            )@),
            exited_ok(*outcome) ==> (r is Ok && final(self)@ == InstanceView {
                controller: Some(device_serial(old(self)@.port)),
                state: InstanceState::Running,
                ..old(self)@
            }),
            !(outcome is TimedOut) && !exited_ok(*outcome) ==> (r matches Err(
                EmulatorError::StartError(t),
            ) && t@ == failure_text(*outcome) && final(self)@ == old(self)@),
    {
        if let ProcessOutcome::TimedOut = outcome {
            return Err(EmulatorError::Timeout);
        }
        match failure_of(outcome) {
            Some(t) => Err(EmulatorError::StartError(t)),
            None => {
                self.app_manager = Some(AppManager::new(self.device_serial()));
                self.state = InstanceState::Running;
                Ok(())
            },
        }
    }

    /// The command that asks the runtime on this instance's serial to exit.
    pub fn kill_command(&self) -> (r: CommandLine)
        ensures
            r.program@ == "adb"@,
            arg_views(r.args@) == seq!["-s"@, device_serial(self@.port), "emu"@, "kill"@],
    {
        let args = vec!["-s".to_owned(), self.device_serial(), "emu".to_owned(), "kill".to_owned()];
        assert(arg_views(args@) =~= seq!["-s"@, device_serial(self@.port), "emu"@, "kill"@]);
        CommandLine { program: "adb".to_owned(), args }
    }

    /// Applies the run of `kill_command`. Success releases the instance's ports and
    /// detaches its controller; any failure changes neither the handle nor the
    /// allocation.
    pub fn finish_stop(&mut self, ports: &mut PortManager, outcome: &ProcessOutcome) -> (r: Result<
        (),
        EmulatorError,
    >)
        requires
            instance_ok(old(self)@),
            old(ports).wf(),
        ensures
            instance_ok(final(self)@),
            final(ports).wf(),
            outcome is TimedOut ==> (r matches Err(EmulatorError::Timeout) && final(self)@ == old(
                self,
            )@ && final(ports)@ == old(ports)@),
            exited_ok(*outcome) ==> (r is Ok && final(self)@ == InstanceView {
                controller: None,
                state: InstanceState::Stopped,
                ..old(self)@
            } && final(ports)@ == old(ports)@.remove(old(self)@.name)),
            !(outcome is TimedOut) && !exited_ok(*outcome) ==> (r matches Err(
                EmulatorError::StopError(t),
            ) && t@ == failure_text(*outcome) && final(self)@ == old(self)@ && final(ports)@
                == old(ports)@),
    {
        if let ProcessOutcome::TimedOut = outcome {
            return Err(EmulatorError::Timeout);
        }
        match failure_of(outcome) {
            Some(t) => Err(EmulatorError::StopError(t)),
            None => {
                ports.release_ports(self.name.as_str());
                self.app_manager = None;
                self.state = InstanceState::Stopped;
                Ok(())
            },
        }
    }

    /// The command that lists the devices the bridge tool knows.
    pub fn status_command(&self) -> (r: CommandLine)
        ensures
            r.program@ == "adb"@,
            arg_views(r.args@) == seq!["devices"@],
    {
        let args = vec!["devices".to_owned()];
        assert(arg_views(args@) =~= seq!["devices"@]);
        CommandLine { program: "adb".to_owned(), args }
    }

    /// Interprets the run of `status_command`: the instance runs when the device
    /// list, decoded, holds its serial as a whole whitespace-separated word.
    pub fn is_running_result(&self, outcome: &ProcessOutcome) -> (r: Result<bool, EmulatorError>)
        ensures
            match *outcome {
                ProcessOutcome::Finished(out) => r == Ok::<bool, EmulatorError>(
                    has_token(utf8_lossy(out.stdout@), device_serial(self@.port)),
                ),
                ProcessOutcome::SpawnFailed(reason) => r matches Err(
                    EmulatorError::StatusCheckError(t),
                ) && t@ == reason@,
                ProcessOutcome::TimedOut => r matches Err(EmulatorError::Timeout),
            },
    {
        match outcome {
            ProcessOutcome::Finished(out) => {
                let serial = self.device_serial();
                let listing = lossy_text(out.stdout.as_slice());
                Ok(contains_token(listing.as_str(), serial.as_str()))
            },
            ProcessOutcome::SpawnFailed(reason) => Err(
                EmulatorError::StatusCheckError(reason.clone()),
            ),
            ProcessOutcome::TimedOut => Err(EmulatorError::Timeout),
        }
    }

    /// `adb -s <serial>` followed by `args`, for any bridge request on this instance.
    pub fn adb_command(&self, args: &Vec<String>) -> (r: CommandLine)
        ensures
            r.program@ == "adb"@,
            arg_views(r.args@) == seq!["-s"@, device_serial(self@.port)] + arg_views(args@),
    {
        let mut all: Vec<String> = vec!["-s".to_owned(), self.device_serial()];
        let mut i: usize = 0;
        while i < args.len()
            invariant
                0 <= i <= args@.len(),
                arg_views(all@) == seq!["-s"@, device_serial(self@.port)] + arg_views(
                    args@.subrange(0, i as int),
                ),
            decreases args@.len() - i,
        {
            let ghost before = all@;
            all.push(args[i].clone());
            proof {
                assert(arg_views(all@) =~= arg_views(before).push(args@[i as int]@));
                assert(args@.subrange(0, i + 1) =~= args@.subrange(0, i as int).push(
                    args@[i as int],
                ));
                assert(arg_views(args@.subrange(0, i + 1)) =~= arg_views(
                    args@.subrange(0, i as int),
                ).push(args@[i as int]@));
            }
            i += 1;
            assert(arg_views(all@) =~= seq!["-s"@, device_serial(self@.port)] + arg_views(
                args@.subrange(0, i as int),
            ));
        }
        assert(args@.subrange(0, args@.len() as int) =~= args@);
        CommandLine { program: "adb".to_owned(), args: all }
    }

    /// Interprets the run of `adb_command`: its standard output on success.
    pub fn adb_command_result(outcome: &ProcessOutcome) -> (r: Result<String, EmulatorError>)
        ensures
            outcome is TimedOut ==> r matches Err(EmulatorError::Timeout),
            exited_ok(*outcome) ==> (r matches Ok(s) && s@ == utf8_lossy(
                outcome->Finished_0.stdout@,
            )),
            !(outcome is TimedOut) && !exited_ok(*outcome) ==> (r matches Err(
                EmulatorError::AdbError(t),
            ) && t@ == failure_text(*outcome)),
    {
        match outcome {
            ProcessOutcome::Finished(out) => {
                if out.success {
                    Ok(lossy_text(out.stdout.as_slice()))
                } else {
                    Err(EmulatorError::AdbError(lossy_text(out.stderr.as_slice())))
                }
            },
            ProcessOutcome::SpawnFailed(reason) => Err(EmulatorError::AdbError(reason.clone())),
            ProcessOutcome::TimedOut => Err(EmulatorError::Timeout),
        }
    }
}

/// Hands out instance handles: allocates their ports, and rebuilds them from
/// stored records. Storing records is the caller's part, made with `to_config_at`.
pub struct EmulatorManager {
    port_manager: PortManager,
}

/// The pair of ports an instance handle stands for, as `allocate_outcome` speaks
/// of it.
pub open spec fn created_pair(r: Result<Emulator, EmulatorError>) -> Result<(u16, u16), PortError> {
    match r {
        Ok(e) => Ok((e@.port, e@.adb_port)),
        Err(_) => Err(PortError::NoAvailablePorts),
    }
}

impl View for EmulatorManager {
    type V = Map<Seq<char>, u16>;

    /// Instance name to allocated console port.
    closed spec fn view(&self) -> Map<Seq<char>, u16> {
        self.port_manager@
    }
}

impl EmulatorManager {
    pub closed spec fn wf(&self) -> bool {
        self.port_manager.wf()
    }

    pub fn new() -> (r: Self)
        ensures
            r.wf(),
            r@ == Map::<Seq<char>, u16>::empty(),
    {
        EmulatorManager { port_manager: PortManager::new() }
    }

    /// Allocates ports for `name` and builds its handle, with nothing attached.
    /// A name that holds ports gets them again.
    pub fn create_emulator(&mut self, name: String) -> (r: Result<Emulator, EmulatorError>)
        requires
            old(self).wf(),
        ensures
            final(self).wf(),
            allocate_outcome(old(self)@, name@, final(self)@, created_pair(r)),
            r matches Ok(e) ==> e@ == fresh_view(name@, e@.port) && instance_ok(e@),
            r matches Err(e) ==> e == EmulatorError::PortError(PortError::NoAvailablePorts),
    {
        match self.port_manager.allocate_ports(name.as_str()) {
            Ok((console_port, _)) => {
                proof {
                    old(self).port_manager.lemma_allocation_ok();
                    if old(self)@.contains_key(name@) {
                        assert(valid_console_port(old(self)@[name@] as int));
                    }
                }
                Ok(Emulator::new(name, console_port))
            },
            Err(e) => Err(EmulatorError::PortError(e)),
        }
    }

    /// Rebuilds the handle of a stored record, with no controller attached, whatever
    /// range its ports came from; None when nothing was stored or the record breaks
    /// the port rule.
    pub fn get_emulator(&self, stored: Option<EmulatorConfig>) -> (r: Option<Emulator>)
        ensures
            match stored {
                Some(c) => if record_ok(c) {
                    r matches Some(e) && e@ == fresh_view(c.name@, c.console_port)
                } else {
                    r is None
                },
                None => r is None,
            },
    {
        match stored {
            Some(config) => match Emulator::from_config(config) {
                Ok(e) => Some(e),
                Err(_) => None,
            },
            None => None,
        }
    }

    /// Rebuilds the handles of stored records, in their order, with no controller
    /// attached; fails on the first record that breaks the port rule.
    pub fn list_emulators(&self, stored: Vec<EmulatorConfig>) -> (r: Result<
        Vec<Emulator>,
        EmulatorError,
    >)
        ensures
            (forall|i: int| 0 <= i < stored@.len() ==> record_ok(#[trigger] stored@[i])) ==> (
            r matches Ok(v) && v@.len() == stored@.len() && forall|i: int|
                0 <= i < v@.len() ==> #[trigger] v@[i]@ == fresh_view(
                    stored@[i].name@,
                    stored@[i].console_port,
                )),
            r is Ok <==> (forall|i: int| 0 <= i < stored@.len() ==> record_ok(#[trigger] stored@[i])),
            r matches Err(e) ==> exists|i: int|
                0 <= i < stored@.len() && !record_ok(#[trigger] stored@[i]) && e
                    == EmulatorError::PortError(record_error(stored@[i])),
    {
        let ghost records = stored@;
        let mut rest = stored;
        let mut out: Vec<Emulator> = Vec::new();
        while rest.len() > 0
            invariant
                records == stored@,
                out@.len() + rest@.len() == records.len(),
                forall|i: int| 0 <= i < out@.len() ==> record_ok(#[trigger] records[i]),
                rest@ == records.subrange(out@.len() as int, records.len() as int),
                forall|i: int|
                    0 <= i < out@.len() ==> #[trigger] out@[i]@ == fresh_view(
                        records[i].name@,
                        records[i].console_port,
                    ),
            decreases rest@.len(),
        {
            let ghost k = out@.len() as int;
            let config = rest.remove(0);
            assert(config == records[k]);
            assert(rest@ =~= records.subrange(k + 1, records.len() as int));
            let ghost c = config;
            match Emulator::from_config(config) {
                Ok(e) => {
                    out.push(e);
                },
                Err(e) => {
                    assert(!record_ok(c));
                    assert(!record_ok(records[k]) && e == EmulatorError::PortError(
                        record_error(records[k]),
                    ));
                    return Err(e);
                },
            }
        }
        Ok(out)
    }

    /// Applies the run of an instance's `kill_command`; see `Emulator::finish_stop`.
    pub fn finish_stop(&mut self, emulator: &mut Emulator, outcome: &ProcessOutcome) -> (r: Result<
        (),
        EmulatorError,
    >)
        requires
            old(self).wf(),
            instance_ok(old(emulator)@),
        ensures
            final(self).wf(),
            instance_ok(final(emulator)@),
            exited_ok(*outcome) ==> (r is Ok && final(emulator)@ == InstanceView {
                controller: None,
                state: InstanceState::Stopped,
                ..old(emulator)@
            } && final(self)@ == old(self)@.remove(old(emulator)@.name)),
            outcome is TimedOut ==> (r matches Err(EmulatorError::Timeout) && final(emulator)@
                == old(emulator)@ && final(self)@ == old(self)@),
            !(outcome is TimedOut) && !exited_ok(*outcome) ==> (r matches Err(
                EmulatorError::StopError(t),
            ) && t@ == failure_text(*outcome) && final(emulator)@ == old(emulator)@
                && final(self)@ == old(self)@),
    {
        emulator.finish_stop(&mut self.port_manager, outcome)
    }

    /// The console and bridge ports held by `name`, if any.
    pub fn get_ports(&self, name: &str) -> (r: Option<(u16, u16)>)
        requires
            self.wf(),
        ensures
            r == (if self@.contains_key(name@) {
                Some((self@[name@], (self@[name@] + 1) as u16))
            } else {
                None::<(u16, u16)>
            }),
    {
        self.port_manager.get_ports(name)
    }
}

} // verus!
