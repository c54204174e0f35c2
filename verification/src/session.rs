//! The device session: the lifecycle of one exclusively grabbed,
//! non-blocking input device, and the poll loop that runs on it.
//!
//! The session performs no I/O. It tells its driver which platform
//! operation to perform next (a [`Command`]), and the driver tells it how
//! that went (a [`Report`]). The order is fixed: open the device node, grab
//! it exclusively, switch it to non-blocking mode, then read records for as
//! long as the process lives, pausing whenever none is available. Every
//! failure is fatal, and on every way out the session asks for the release
//! of what it holds.

use crate::codec::{decode_spec, decode_with, ByteOrder, FramingError, RawEvent, RECORD_SIZE};
use crate::debounce::{ButtonState, DebounceConfig, Debouncer, LogicalEvent};
use vstd::prelude::*;

verus! {

/// Request code of the exclusive-grab control request.
pub const EVIOCGRAB: u64 = 0x4004_4590;

/// Argument of the control request that takes the grab.
pub const GRAB: i32 = 1;

/// Argument of the control request that gives the grab back.
pub const RELEASE: i32 = 0;

/// Exit code of a session that ended without an error.
pub const EXIT_OK: i32 = 0;

/// Exit code of a session that ended with an error.
pub const EXIT_FAILURE: i32 = 1;

/// Why a session ended. Each of these is fatal where it occurs.
#[derive(Clone, Copy, Debug, PartialEq, Eq)]
pub enum SessionError {
    /// The device node does not exist or is not accessible.
    Open,
    /// Exclusive access is not to be had: another process holds the grab,
    /// or the device does not support it.
    Grab,
    /// Non-blocking mode could not be set.
    Config,
    /// A read failed for another reason than the absence of data.
    Read,
    /// A read delivered something other than one whole record.
    Framing(FramingError),
}

/// What the driver is to do next.
#[derive(Clone, Copy, Debug, PartialEq, Eq)]
pub enum Command {
    /// Open the device node.
    Open,
    /// Issue [`EVIOCGRAB`] with the argument [`GRAB`].
    Grab,
    /// Switch the handle to non-blocking mode.
    SetNonblocking,
    /// Try to read one record.
    Read,
    /// Sleep for one poll interval, then try to read one record.
    PauseThenRead,
    /// Give back what the session holds, in this order, and exit: issue
    /// [`EVIOCGRAB`] with the argument [`RELEASE`] if `release_grab`, close
    /// the handle if `close_handle`, and leave with [`exit_code`] of
    /// `error`.
    Shutdown { release_grab: bool, close_handle: bool, error: Option<SessionError> },
}

/// How the platform answered the pending command.
#[derive(Debug, PartialEq, Eq)]
pub enum Report {
    /// The operation succeeded; for a read, see [`Report::Bytes`].
    Succeeded,
    /// The operation failed.
    Failed,
    /// A read delivered these bytes.
    Bytes(Vec<u8>),
    /// A read found no record available.
    WouldBlock,
    /// The driver was asked to stop, and did not perform the command.
    Cancelled,
}

/// What one step of the session surfaces to the application.
#[derive(Clone, Copy, Debug, PartialEq, Eq)]
pub struct Notice {
    /// The record that was read in this step, if any.
    pub record: Option<RawEvent>,
    /// The logical event to emit, if any.
    pub emitted: Option<LogicalEvent>,
    /// A press is open and the control has been silent for longer than the
    /// debounce window.
    pub silence_timeout: bool,
}

impl Command {
    /// The session has an open handle while this command is pending.
    pub open spec fn holds_handle(self) -> bool {
        self is Grab || self is SetNonblocking || self is Read || self is PauseThenRead
    }

    /// The session holds the exclusive grab while this command is pending.
    pub open spec fn holds_grab(self) -> bool {
        self is SetNonblocking || self is Read || self is PauseThenRead
    }

    /// The command that ends a session in which this command is pending.
    pub open spec fn shutdown(self, error: Option<SessionError>) -> Command {
        Command::Shutdown {
            release_grab: self.holds_grab(),
            close_handle: self.holds_handle(),
            error,
        }
    }
}

impl Report {
    /// What the return value of a control request reports: a negative value
    /// a failure, any other a success.
    pub open spec fn of_return_code(rc: i32) -> Report {
        if rc < 0 {
            Report::Failed
        } else {
            Report::Succeeded
        }
    }

    /// Reads the return value of a control request.
    pub fn from_return_code(rc: i32) -> (report: Report)
        ensures
            report == Report::of_return_code(rc),
    {
        if rc < 0 {
            Report::Failed
        } else {
            Report::Succeeded
        }
    }
}

impl Notice {
    /// Nothing to surface.
    pub open spec fn nothing() -> Notice {
        Notice { record: None, emitted: None, silence_timeout: false }
    }
}

/// What the driver's report on a read amounts to: a record, the absence of
/// one, or a fatal error.
pub open spec fn read_result(report: Report, order: ByteOrder) -> Result<
    Option<RawEvent>,
    SessionError,
> {
    match report {
        Report::Bytes(bytes) => {
            if bytes@.len() == RECORD_SIZE {
                Ok(Some(decode_spec(bytes@, order)))
            } else {
                Err(SessionError::Framing(FramingError { len: bytes@.len() as usize }))
            }
        },
        Report::WouldBlock => Ok(None),
        _ => Err(SessionError::Read),
    }
}

/// Reads the driver's report on a read.
///
/// Bytes that make up one whole record are decoded in the given byte order;
/// bytes of any other width are a framing error. That no record is
/// available is no error. Any other report is a read error.
pub fn try_read(report: &Report, order: ByteOrder) -> (r: Result<Option<RawEvent>, SessionError>)
    ensures
        r == read_result(*report, order),
{
    match report {
        Report::Bytes(bytes) => {
            match decode_with(bytes.as_slice(), order) {
                Ok(event) => Ok(Some(event)),
                Err(framing) => Err(SessionError::Framing(framing)),
            }
        },
        Report::WouldBlock => Ok(None),
        _ => Err(SessionError::Read),
    }
}

/// The process exit code of a session that ended with `error`.
pub fn exit_code(error: Option<SessionError>) -> (code: i32)
    ensures
        code == if error is None {
            EXIT_OK
        } else {
            EXIT_FAILURE
        },
{
    match error {
        None => EXIT_OK,
        Some(_) => EXIT_FAILURE,
    }
}

/// One device session with the debounce engine that it feeds.
#[derive(Clone, Copy, Debug, PartialEq, Eq)]
pub struct Session {
    /// The command that the driver is to perform and report on next.
    pub pending: Command,
    /// The byte order of the device's records.
    pub order: ByteOrder,
    /// The debounce engine.
    pub engine: Debouncer,
}

impl Session {
    /// The engine's state is well formed.
    pub open spec fn wf(self) -> bool {
        self.engine.wf()
    }

    /// The session after it has ended with `error`.
    pub open spec fn ended(self, error: Option<SessionError>) -> Session {
        Session { pending: self.pending.shutdown(error), ..self }
    }

    /// The session with another command pending.
    pub open spec fn proceed(self, command: Command) -> Session {
        Session { pending: command, ..self }
    }

    /// The session after the driver's report on a read: a record is fed to
    /// the engine and the next read follows at once, the absence of one is
    /// followed by a pause, and an error ends the session.
    pub open spec fn after_read(self, report: Report, now_ms: i64) -> Session {
        match read_result(report, self.order) {
            Ok(Some(event)) => Session {
                pending: Command::Read,
                engine: self.engine.after_event(event, now_ms),
                ..self
            },
            Ok(None) => self.proceed(Command::PauseThenRead),
            Err(error) => self.ended(Some(error)),
        }
    }

    /// The session after the driver's report on the pending command.
    ///
    /// A session that has shut down stays as it is. A cancellation ends the
    /// session without an error. Otherwise the report answers the pending
    /// command: on success the next operation of the lifecycle becomes
    /// pending, and anything that is not the success of the pending command
    /// ends the session with the error of that command.
    pub open spec fn after(self, report: Report, now_ms: i64) -> Session {
        if self.pending is Shutdown {
            self
        } else if report is Cancelled {
            self.ended(None)
        } else {
            match self.pending {
                Command::Open => if report is Succeeded {
                    self.proceed(Command::Grab)
                } else {
                    self.ended(Some(SessionError::Open))
                },
                Command::Grab => if report is Succeeded {
                    self.proceed(Command::SetNonblocking)
                } else {
                    self.ended(Some(SessionError::Grab))
                },
                Command::SetNonblocking => if report is Succeeded {
                    self.proceed(Command::Read)
                } else {
                    self.ended(Some(SessionError::Config))
                },
                _ => self.after_read(report, now_ms),
            }
        }
    }

    /// What the step on `report` surfaces: the record that was read and the
    /// logical event that it gives rise to, or the silence timeout when
    /// there was none to read.
    pub open spec fn notice(self, report: Report, now_ms: i64) -> Notice {
        if self.pending is Read || self.pending is PauseThenRead {
            match read_result(report, self.order) {
                Ok(Some(event)) => Notice {
                    record: Some(event),
                    emitted: self.engine.emission_for(event, now_ms),
                    silence_timeout: false,
                },
                Ok(None) => Notice {
                    record: None,
                    emitted: None,
                    silence_timeout: self.engine.state.silent_since(
                        now_ms,
                        self.engine.config.debounce_ms,
                    ),
                },
                Err(_) => Notice::nothing(),
            }
        } else {
            Notice::nothing()
        }
    }

    /// A session at its start: the device node is to be opened, and the
    /// engine is at its start.
    pub fn new(config: DebounceConfig, order: ByteOrder) -> (session: Session)
        ensures
            session.pending == Command::Open,
            session.order == order,
            session.engine.config == config,
            session.engine.state == ButtonState::initial(),
            session.wf(),
    {
        Session { pending: Command::Open, order, engine: Debouncer::new(config) }
    }

    /// Ends the session with `error`.
    fn end(&mut self, error: Option<SessionError>)
        ensures
            *final(self) == old(self).ended(error),
    {
        let (release_grab, close_handle) = match self.pending {
            Command::Grab => (false, true),
            Command::SetNonblocking | Command::Read | Command::PauseThenRead => (true, true),
            _ => (false, false),
        };
        self.pending = Command::Shutdown { release_grab, close_handle, error };
    }

    /// Takes the driver's report on a read, received at `now_ms`.
    fn read_reported(&mut self, report: Report, now_ms: i64) -> (notice: Notice)
        requires
            old(self).pending is Read || old(self).pending is PauseThenRead,
        ensures
            *final(self) == old(self).after_read(report, now_ms),
            notice == old(self).notice(report, now_ms),
            old(self).wf() ==> final(self).wf(),
    {
        match try_read(&report, self.order) {
            Ok(Some(event)) => {
                let mut engine = self.engine;
                let emitted = engine.handle_event(&event, now_ms);
                self.engine = engine;
                self.pending = Command::Read;
                Notice { record: Some(event), emitted, silence_timeout: false }
            },
            Ok(None) => {
                self.pending = Command::PauseThenRead;
                Notice {
                    record: None,
                    emitted: None,
                    silence_timeout: self.engine.silence_timeout(now_ms),
                }
            },
            Err(error) => {
                self.end(Some(error));
                Notice { record: None, emitted: None, silence_timeout: false }
            },
        }
    }

    /// Takes the driver's report on the pending command, received at
    /// `now_ms`, and makes the next command pending. Returns what the step
    /// surfaces to the application.
    pub fn advance(&mut self, report: Report, now_ms: i64) -> (notice: Notice)
        ensures
            *final(self) == old(self).after(report, now_ms),
            notice == old(self).notice(report, now_ms),
            old(self).wf() ==> final(self).wf(),
    {
        let nothing = Notice { record: None, emitted: None, silence_timeout: false };
        if let Command::Shutdown { .. } = self.pending {
            return nothing;
        }
        if let Report::Cancelled = report {
            self.end(None);
            return nothing;
        }
        let succeeded = match report {
            Report::Succeeded => true,
            _ => false,
        };
        match self.pending {
            Command::Open => {
                if succeeded {
                    self.pending = Command::Grab;
                } else {
                    self.end(Some(SessionError::Open));
                }
                nothing
            },
            Command::Grab => {
                if succeeded {
                    self.pending = Command::SetNonblocking;
                } else {
                    self.end(Some(SessionError::Grab));
                }
                nothing
            },
            Command::SetNonblocking => {
                if succeeded {
                    self.pending = Command::Read;
                } else {
                    self.end(Some(SessionError::Config));
                }
                nothing
            },
            _ => self.read_reported(report, now_ms),
        }
    }
}

/// The release obligation: whenever a step makes the session lose its
/// handle or its grab, the command that it leaves pending is the shutdown
/// that closes the one and releases the other. A session that ends without
/// the grab is not asked to release it.
pub proof fn law_release_on_every_exit(s: Session, report: Report, now_ms: i64)
    ensures
        ({
            let next = s.after(report, now_ms).pending;
            &&& s.pending.holds_handle() && !next.holds_handle() ==> next is Shutdown
                && next->close_handle
            &&& s.pending.holds_grab() && !next.holds_grab() ==> next is Shutdown
                && next->release_grab
            &&& !s.pending.holds_grab() && !(s.pending is Shutdown) && next is Shutdown
                ==> !next->release_grab
        }),
{
}

/// The lifecycle runs in one order and never turns back: the grab is asked
/// for only once the open has succeeded, non-blocking mode only once the
/// grab has, and records are read only once both are in place. In
/// particular the session takes itself to hold the grab only after the
/// platform has reported the success of the grab request.
pub proof fn law_lifecycle_order(s: Session, report: Report, now_ms: i64)
    ensures
        ({
            let next = s.after(report, now_ms).pending;
            &&& !(next is Open)
            &&& next is Grab ==> s.pending is Open && report is Succeeded
            &&& next is SetNonblocking ==> s.pending is Grab && report is Succeeded
            &&& next is Read || next is PauseThenRead ==> s.pending is Read
                || s.pending is PauseThenRead || (s.pending is SetNonblocking
                && report is Succeeded)
            &&& next.holds_grab() && !s.pending.holds_grab() ==> s.pending is Grab
                && report is Succeeded
        }),
{
}

/// A grab request that the platform refuses is never taken for a success:
/// the session ends with [`SessionError::Grab`], holds no grab, and is
/// asked to close its handle.
pub proof fn law_refused_grab_is_fatal(s: Session, rc: i32, now_ms: i64)
    requires
        s.pending == Command::Grab,
        rc < 0,
    ensures
        s.after(Report::of_return_code(rc), now_ms).pending == (Command::Shutdown {
            release_grab: false,
            close_handle: true,
            error: Some(SessionError::Grab),
        }),
{
}

} // verus!
