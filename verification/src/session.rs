//! The device session state machine: the single notion of "the
//! currently bound device", the `active` flag, and the transitions
//! that mutate them.
//!
//! A session is `Idle` (inactive, no bound device) or `Bound` (active,
//! bound to one device). `bind_and_send` moves Idle to Bound, resolves
//! the command template and sends the unlock payloads; `begin_flash` /
//! `finish_flash` run the flash command while the device is held open
//! and then reset; `reset` is the explicit escape back to Idle.
//!
//! Deliberately, a failed transport open or write during
//! `bind_and_send` does *not* roll the binding back: the session still
//! becomes Bound, so the user sees which device errored and can retry
//! the flash step against it.

use vstd::prelude::*;
use vstd::string::StringExecFns;

use crate::device::SerialItem;
use crate::device::SerialItemView;
use crate::flash::ExecutionResult;
use crate::flash::FlashError;
use crate::flash::os_kind_of;
use crate::flash::os_kind_view;
use crate::flash::render_spec;
use crate::flash::render_execution_result;
use crate::flash::shell_flag;
use crate::flash::shell_invocation;
use crate::flash::shell_program;
use crate::template::Bindings;
use crate::template::ResolveError;
use crate::template::ResolveErrorSpec;
use crate::template::resolve;
use crate::template::resolve_spec;
use crate::transport::TransportError;
use crate::transport::close_port;
use crate::transport::open_transport;
use crate::transport::port_baud_rate_of;
use crate::transport::port_name_of;
use crate::transport::port_timeout_millis_of;
use crate::transport::port_writes_of;
use crate::transport::send_unlock;

verus! {

/// The core mutable session entity.
pub struct SessionState {
    active: bool,
    bound_device: Option<SerialItem>,
    default_flash_command: String,
    resolved_flash_command: String,
    status: String,
    unlock_writes: Ghost<Seq<Seq<char>>>,
}

/// Mathematical image of a `SessionState`.
#[verifier::ext_equal]
pub struct SessionView {
    pub active: bool,
    pub bound_device: Option<SerialItemView>,
    pub default_flash_command: Seq<char>,
    pub resolved_flash_command: Seq<char>,
    pub status: Seq<char>,
}

impl View for SessionState {
    type V = SessionView;

    closed spec fn view(&self) -> SessionView {
        SessionView {
            active: self.active,
            bound_device: match self.bound_device {
                Some(d) => Some(d@),
                None => None,
            },
            default_flash_command: self.default_flash_command@,
            resolved_flash_command: self.resolved_flash_command@,
            status: self.status@,
        }
    }
}

/// The session invariant: an active session is bound to a device.
pub open spec fn wf_view(v: SessionView) -> bool {
    v.active ==> v.bound_device is Some
}

/// The view of an optional configuration value.
pub open spec fn opt_text_view(c: Option<String>) -> Option<Seq<char>> {
    match c {
        Some(s) => Some(s@),
        None => None,
    }
}

/// The session after a reset: inactive, unbound, the template
/// reloaded from the configuration value where one could be read and
/// kept otherwise, the resolved command re-populated from the
/// template, and the status untouched.
pub open spec fn reset_view(v: SessionView, cfg: Option<Seq<char>>) -> SessionView {
    SessionView {
        active: false,
        bound_device: None,
        default_flash_command: match cfg {
            Some(c) => c,
            None => v.default_flash_command,
        },
        resolved_flash_command: match cfg {
            Some(c) => c,
            None => v.default_flash_command,
        },
        status: v.status,
    }
}

/// Law: resetting twice in succession yields the same session as
/// resetting once.
pub proof fn lemma_reset_idempotent(v: SessionView, cfg: Option<Seq<char>>)
    ensures
        reset_view(reset_view(v, cfg), cfg) == reset_view(v, cfg),
{
    assert(reset_view(reset_view(v, cfg), cfg) =~= reset_view(v, cfg));
}

/// Law: after a reset the session is inactive and unbound, and the
/// session invariant holds.
pub proof fn lemma_reset_deactivates(v: SessionView, cfg: Option<Seq<char>>)
    ensures
        !reset_view(v, cfg).active,
        reset_view(v, cfg).bound_device is None,
        wf_view(reset_view(v, cfg)),
{
}

/// The status text that reports the outcome of the unlock-payload
/// sends.
pub open spec fn send_status_view(r: Result<(), TransportError>) -> Seq<char> {
    match r {
        Ok(_) => "unlock payloads sent"@,
        Err(TransportError::OpenFailed) => "failed to open port"@,
        Err(TransportError::WriteFailed) => "write failed"@,
    }
}

fn send_status(r: Result<(), TransportError>) -> (s: String)
    ensures
        s@ == send_status_view(r),
{
    match r {
        Ok(_) => String::from_str("unlock payloads sent"),
        Err(TransportError::OpenFailed) => String::from_str("failed to open port"),
        Err(TransportError::WriteFailed) => String::from_str("write failed"),
    }
}

/// The status text that reports a template-resolution failure.
pub open spec fn resolve_status_view(e: ResolveErrorSpec) -> Seq<char> {
    match e {
        ResolveErrorSpec::UnboundPlaceholder(name) => "unbound placeholder: "@ + name,
        ResolveErrorSpec::MalformedTemplate => "malformed template"@,
    }
}

fn resolve_status(e: &ResolveError) -> (s: String)
    ensures
        s@ == resolve_status_view(e@),
{
    match e {
        ResolveError::UnboundPlaceholder(name) => String::from_str(
            "unbound placeholder: ",
        ).concat(name.as_str()),
        ResolveError::MalformedTemplate => String::from_str("malformed template"),
    }
}

/// The status text that reports the outcome of the flash execution.
pub open spec fn flash_status_view(o: Result<ExecutionResult, FlashError>) -> Seq<char> {
    match o {
        Ok(res) => render_spec(res.exit_code, res.stdout@, res.stderr@),
        Err(FlashError::LaunchFailed) => "failed to launch the shell"@,
        Err(FlashError::UnsupportedPlatform) => "unsupported platform"@,
    }
}

/// The bindings available to the flash-command template: the bound
/// device's name under `port_name`.
pub open spec fn port_bindings(name: Seq<char>) -> Map<Seq<char>, Seq<char>> {
    Map::<Seq<char>, Seq<char>>::empty().insert("port_name"@, name)
}

/// Evidence that a serial handle to `name` existed, opened at 9600
/// baud with the five-second unlock timeout, whose write log is
/// exactly `writes`. Only the trusted transport calls yield facts
/// about a handle's name, rate, timeout and log, so this cannot be
/// established without the open and the writes really happening.
pub open spec fn unlock_evidence(name: Seq<char>, writes: Seq<Seq<char>>) -> bool {
    exists|p: serialport::TTYPort|
        #![trigger port_writes_of(p)]
        port_name_of(p) == name && port_baud_rate_of(p) == 9600 && port_timeout_millis_of(p)
            == 5000 && port_writes_of(p) == writes
}

/// A flash invocation prepared while the bound device is held open.
pub struct FlashJob {
    port: serialport::TTYPort,
    program: String,
    sh_flag: String,
    command: String,
}

/// Mathematical image of a `FlashJob`: the invocation's text.
pub struct FlashJobView {
    pub program: Seq<char>,
    pub sh_flag: Seq<char>,
    pub command: Seq<char>,
}

impl View for FlashJob {
    type V = FlashJobView;

    closed spec fn view(&self) -> FlashJobView {
        FlashJobView {
            program: self.program@,
            sh_flag: self.sh_flag@,
            command: self.command@,
        }
    }
}

impl FlashJob {
    /// The name of the port held open for this invocation.
    pub closed spec fn held_port_name(&self) -> Seq<char> {
        port_name_of(self.port)
    }

    /// The baud rate the held port was opened at.
    pub closed spec fn held_baud_rate(&self) -> u32 {
        port_baud_rate_of(self.port)
    }

    /// The timeout, in milliseconds, the held port was opened with.
    pub closed spec fn held_timeout_millis(&self) -> u64 {
        port_timeout_millis_of(self.port)
    }

    /// The payloads written through the held port. The hold phase
    /// writes nothing, and a `FlashJob` offers no write operation.
    pub closed spec fn held_writes(&self) -> Seq<Seq<char>> {
        port_writes_of(self.port)
    }

    /// The shell binary to spawn.
    pub fn program(&self) -> (r: &String)
        ensures
            r@ == self@.program,
    {
        &self.program
    }

    /// The shell's command-string flag.
    pub fn sh_flag(&self) -> (r: &String)
        ensures
            r@ == self@.sh_flag,
    {
        &self.sh_flag
    }

    /// The resolved command handed to the shell.
    pub fn command(&self) -> (r: &String)
        ensures
            r@ == self@.command,
    {
        &self.command
    }

    /// Releases the device held open for this invocation.
    pub fn close(self) {
        close_port(self.port);
    }
}

impl SessionState {
    /// The session invariant, over the session's view.
    pub open spec fn wf(&self) -> bool {
        wf_view(self@)
    }

    /// The payloads recorded as written during the last
    /// bind-and-send attempt, in the order they went out.
    pub closed spec fn unlock_writes(&self) -> Seq<Seq<char>> {
        self.unlock_writes@
    }

    /// The one session, made at process start: inactive, unbound,
    /// with the command template loaded from configuration — the
    /// empty string where none could be read — and pre-populated as
    /// the resolved command.
    pub fn new(initial_config: Option<String>) -> (r: SessionState)
        ensures
            r.wf(),
            r@.active == false,
            r@.bound_device is None,
            r@.default_flash_command == match opt_text_view(initial_config) {
                Some(c) => c,
                None => Seq::<char>::empty(),
            },
            r@.resolved_flash_command == r@.default_flash_command,
            r@.status == Seq::<char>::empty(),
            r.unlock_writes() == Seq::<Seq<char>>::empty(),
    {
        let default_flash_command = match initial_config {
            Some(c) => c,
            None => String::new(),
        };
        let resolved_flash_command = default_flash_command.clone();
        SessionState {
            active: false,
            bound_device: None,
            default_flash_command,
            resolved_flash_command,
            status: String::new(),
            unlock_writes: Ghost(Seq::empty()),
        }
    }

    /// Is a device session currently open for flashing?
    pub fn port_open(&self) -> (r: bool)
        ensures
            r == self@.active,
    {
        self.active
    }

    /// The device the session is bound to, `None` when idle.
    pub fn current_port(&self) -> (r: &Option<SerialItem>)
        ensures
            match r {
                Some(d) => self@.bound_device == Some(d@),
                None => self@.bound_device is None,
            },
    {
        &self.bound_device
    }

    /// The unresolved command template.
    pub fn default_flash_command(&self) -> (r: &String)
        ensures
            r@ == self@.default_flash_command,
    {
        &self.default_flash_command
    }

    /// The command that will be handed to the shell; user-editable.
    pub fn resolved_flash_command(&self) -> (r: &String)
        ensures
            r@ == self@.resolved_flash_command,
    {
        &self.resolved_flash_command
    }

    /// The last observable status text.
    pub fn status(&self) -> (r: &String)
        ensures
            r@ == self@.status,
    {
        &self.status
    }

    /// Overwrites the resolved command with an edited one.
    pub fn set_resolved_flash_command(&mut self, command: String)
        requires
            old(self).wf(),
        ensures
            final(self).wf(),
            final(self)@ == (SessionView {
                resolved_flash_command: command@,
                ..old(self)@
            }),
            final(self).unlock_writes() == old(self).unlock_writes(),
    {
        self.resolved_flash_command = command;
        proof {
            assert(self@ =~= (SessionView { resolved_flash_command: command@, ..old(self)@ }));
        }
    }

    /// Reloads the command template from configuration; keeps the
    /// prior template where no value could be read. Touches nothing
    /// else, and is idempotent for a fixed configuration value.
    pub fn refresh_templates(&mut self, config_command: Option<String>)
        requires
            old(self).wf(),
        ensures
            final(self).wf(),
            final(self)@ == (SessionView {
                default_flash_command: match opt_text_view(config_command) {
                    Some(c) => c,
                    None => old(self)@.default_flash_command,
                },
                ..old(self)@
            }),
            final(self).unlock_writes() == old(self).unlock_writes(),
    {
        match config_command {
            Some(c) => {
                self.default_flash_command = c;
            },
            None => {},
        }
        proof {
            assert(self@ =~= (SessionView {
                default_flash_command: match opt_text_view(config_command) {
                    Some(c) => c,
                    None => old(self)@.default_flash_command,
                },
                ..old(self)@
            }));
        }
    }

    /// The explicit escape back to Idle without flashing: clears the
    /// binding and the `active` flag together, reloads the template
    /// from configuration, and leaves the status untouched.
    pub fn reset(&mut self, config_command: Option<String>)
        requires
            old(self).wf(),
        ensures
            final(self).wf(),
            final(self)@ == reset_view(old(self)@, opt_text_view(config_command)),
            final(self).unlock_writes() == old(self).unlock_writes(),
    {
        self.active = false;
        self.bound_device = None;
        match config_command {
            Some(c) => {
                self.default_flash_command = c;
            },
            None => {},
        }
        self.resolved_flash_command = self.default_flash_command.clone();
        proof {
            assert(self@ =~= reset_view(old(self)@, opt_text_view(config_command)));
        }
    }

    /// Binds the session to `device` and sends the unlock payloads:
    /// resolves the command template by substituting the device's
    /// name for `{port_name}`, opens the device at 9600 baud with a
    /// five-second timeout, writes the password payload and then the
    /// initial-command payload, and closes the transport.
    ///
    /// The session becomes Bound whatever happens; a resolution or
    /// transport failure is only reported in the status text. The
    /// payloads that went out are recorded in `unlock_writes`: both,
    /// in order, when the status reports success; none on an open or
    /// resolution failure; at most the password on a write failure.
    pub fn bind_and_send(&mut self, device: SerialItem, password: &str, initial_command: &str)
        requires
            old(self).wf(),
            !old(self)@.active,
        ensures
            final(self).wf(),
            final(self)@.active == true,
            final(self)@.bound_device == Some(device@),
            final(self)@.default_flash_command == old(self)@.default_flash_command,
            ({
                let resolved = resolve_spec(
                    old(self)@.resolved_flash_command,
                    port_bindings(device@.name),
                );
                match resolved {
                    Ok(cmd) => final(self)@.resolved_flash_command == cmd && ({
                        ||| (final(self)@.status == send_status_view(Ok(()))
                            && final(self).unlock_writes() == seq![password@, initial_command@]
                            && unlock_evidence(device@.name, seq![password@, initial_command@]))
                        ||| (final(self)@.status == send_status_view(
                            Err(TransportError::OpenFailed),
                        ) && final(self).unlock_writes() == Seq::<Seq<char>>::empty())
                        ||| (final(self)@.status == send_status_view(
                            Err(TransportError::WriteFailed),
                        ) && (final(self).unlock_writes() == Seq::<Seq<char>>::empty()
                            || final(self).unlock_writes() == seq![password@]) && unlock_evidence(
                            device@.name,
                            final(self).unlock_writes(),
                        ))
                    }),
                    Err(e) => final(self)@.resolved_flash_command == old(
                        self,
                    )@.resolved_flash_command && final(self)@.status == resolve_status_view(e)
                        && final(self).unlock_writes() == Seq::<Seq<char>>::empty(),
                }
            }),
    {
        let mut bindings = Bindings::new();
        bindings.insert("port_name", device.get_name().as_str());
        match resolve(self.resolved_flash_command.as_str(), &bindings) {
            Err(e) => {
                self.status = resolve_status(&e);
                self.unlock_writes = Ghost(Seq::empty());
            },
            Ok(cmd) => {
                self.resolved_flash_command = cmd;
                let ghost mut written: Seq<Seq<char>> = Seq::empty();
                let ghost mut witness: serialport::TTYPort = arbitrary();
                let outcome = match open_transport(device.get_name().as_str(), 9600, Some(5000)) {
                    Err(e) => Err(e),
                    Ok(mut port) => {
                        let sent = send_unlock(&mut port, password, initial_command);
                        proof {
                            written = port_writes_of(port);
                            witness = port;
                        }
                        close_port(port);
                        sent
                    },
                };
                self.unlock_writes = Ghost(written);
                self.status = send_status(outcome);
                proof {
                    assert(Seq::<Seq<char>>::empty().push(password@).push(initial_command@)
                        =~= seq![password@, initial_command@]);
                    assert(Seq::<Seq<char>>::empty().push(password@) =~= seq![password@]);
                    if outcome != Err::<(), TransportError>(TransportError::OpenFailed) {
                        assert(port_writes_of(witness) == written);
                        assert(unlock_evidence(device@.name, written));
                    }
                }
            },
        }
        self.active = true;
        self.bound_device = Some(device);
    }

    /// Starts the flash transition: legal only when a session is
    /// active. Opens a fresh transport to the bound device — held
    /// open only to represent device-busy; no bytes are written — and
    /// selects the shell invocation for the host. `None` means the
    /// attempt was aborted (unsupported host, or the device could not
    /// be opened) and the status says why; the caller should still
    /// proceed to a reset. `Some` hands back the prepared invocation
    /// while the session stays Bound.
    pub fn begin_flash(&mut self, os_name: &str) -> (r: Option<FlashJob>)
        requires
            old(self).wf(),
            old(self)@.active,
        ensures
            final(self).wf(),
            final(self)@ == (SessionView { status: final(self)@.status, ..old(self)@ }),
            match os_kind_view(os_name@) {
                None => r is None && final(self)@.status == "unsupported platform"@,
                Some(os) => match r {
                    None => final(self)@.status == "failed to open port"@,
                    Some(job) => final(self)@.status == "running command"@ && job@.program
                        == shell_program(os) && job@.sh_flag == shell_flag(os) && job@.command
                        == old(self)@.resolved_flash_command
                        && job.held_port_name() == old(self)@.bound_device->Some_0.name
                        && job.held_baud_rate() == 9600
                        && job.held_timeout_millis() == 0 && job.held_writes()
                        == Seq::<Seq<char>>::empty(),
                },
            },
            final(self).unlock_writes() == old(self).unlock_writes(),
    {
        let r = match os_kind_of(os_name) {
            None => {
                self.status = String::from_str("unsupported platform");
                None
            },
            Some(os) => {
                let opened = match &self.bound_device {
                    Some(d) => open_transport(d.get_name().as_str(), 9600, None),
                    None => {
                        // An active session is bound, by the invariant.
                        proof {
                            assert(false);
                        }
                        Err(TransportError::OpenFailed)
                    },
                };
                match opened {
                    Err(_) => {
                        self.status = String::from_str("failed to open port");
                        None
                    },
                    Ok(port) => {
                        let invocation = shell_invocation(
                            os,
                            self.resolved_flash_command.as_str(),
                        );
                        self.status = String::from_str("running command");
                        Some(
                            FlashJob {
                                port,
                                program: invocation.0,
                                sh_flag: invocation.1,
                                command: invocation.2,
                            },
                        )
                    },
                }
            },
        };
        proof {
            assert(self@ =~= (SessionView { status: self@.status, ..old(self)@ }));
        }
        r
    }

    /// Ends the flash transition: records the execution outcome —
    /// the rendered process result, or why the shell could not be
    /// launched — as the status, then performs the reset effect. The
    /// caller closes the `FlashJob` it was handed before calling
    /// this.
    pub fn finish_flash(
        &mut self,
        outcome: Result<ExecutionResult, FlashError>,
        config_command: Option<String>,
    )
        requires
            old(self).wf(),
            old(self)@.active,
        ensures
            final(self).wf(),
            final(self)@ == (SessionView {
                status: flash_status_view(outcome),
                ..reset_view(old(self)@, opt_text_view(config_command))
            }),
            final(self).unlock_writes() == old(self).unlock_writes(),
    {
        self.status = match &outcome {
            Ok(res) => render_execution_result(res),
            Err(FlashError::LaunchFailed) => String::from_str("failed to launch the shell"),
            Err(FlashError::UnsupportedPlatform) => String::from_str("unsupported platform"),
        };
        self.active = false;
        self.bound_device = None;
        match config_command {
            Some(c) => {
                self.default_flash_command = c;
            },
            None => {},
        }
        self.resolved_flash_command = self.default_flash_command.clone();
        proof {
            assert(self@ =~= (SessionView {
                status: flash_status_view(outcome),
                ..reset_view(old(self)@, opt_text_view(config_command))
            }));
        }
    }
}

} // verus!
