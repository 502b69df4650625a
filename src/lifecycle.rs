//! Open and close of a port as a state machine: the caller performs each native
//! action and hands back what came of it as an event.
use vstd::prelude::*;

use crate::dcb::{defaults_applied, native_of, to_native, unknown_field_message, is_invalid_input, apply_defaults, ControlBlock};
use crate::enumerate::{as_utf16, utf16_units};
use crate::{os_error, error_from_os, Error, PortSettings};

verus! {

/// The UTF-16 unit of a backslash.
pub const BACKSLASH: u16 = 0x5C;
/// The UTF-16 unit of a full stop.
pub const DOT: u16 = 0x2E;

/// The prefix of the device namespace: backslash, backslash, full stop, backslash.
pub open spec fn device_prefix() -> Seq<u16> {
    seq![BACKSLASH, BACKSLASH, DOT, BACKSLASH]
}

/// The NUL-terminated UTF-16 name under which the device is opened: a path whose
/// first unit is a backslash is taken as it is, any other gets the device-namespace
/// prefix.
pub open spec fn device_name(path: Seq<char>) -> Seq<u16> {
    let units = utf16_units(path);
    if units.len() > 0 && units[0] == BACKSLASH {
        units.push(0)
    } else {
        device_prefix() + units.push(0)
    }
}

/// The name under which the device at `path` is opened.
pub fn device_path(path: &str) -> (r: Vec<u16>)
    ensures
        r@ == device_name(path@),
{
    let units = as_utf16(path);
    if units.len() > 1 && units[0] == BACKSLASH {
        units
    } else {
        let mut name: Vec<u16> = vec![BACKSLASH, BACKSLASH, DOT, BACKSLASH];
        let mut i: usize = 0;
        while i < units.len()
            invariant
                i <= units@.len(),
                name@ == device_prefix() + units@.subrange(0, i as int),
            decreases units@.len() - i,
        {
            name.push(units[i]);
            i = i + 1;
            assert(name@ =~= device_prefix() + units@.subrange(0, i as int));
        }
        assert(units@.subrange(0, i as int) =~= units@);
        name
    }
}

/// The native resources that a port holds: the device handle and one completion
/// event per direction.
#[derive(Debug, Copy, Clone, PartialEq, Eq, Structural)]
pub struct Held {
    pub device: bool,
    pub read_event: bool,
    pub write_event: bool,
}

pub open spec fn nothing_held() -> Held {
    Held { device: false, read_event: false, write_event: false }
}

pub open spec fn all_held() -> Held {
    Held { device: true, read_event: true, write_event: true }
}

/// Where a port stands in its life.
#[derive(Debug, Copy, Clone, PartialEq, Eq, Structural)]
pub enum Phase {
    /// The device is being acquired.
    Acquiring,
    /// A second handle to an open port's device is being obtained by duplication.
    Duplicating,
    /// The device is held; its control block is being read.
    ReadingBlock,
    /// The device is held; the configured control block is being written.
    WritingBlock,
    /// The device is held; the completion events are being created.
    CreatingEvents,
    /// Everything is held and the port is usable.
    Ready,
    /// Opening failed; nothing is held.
    Failed,
    /// The port was closed; nothing is held.
    Closed,
}

/// What came of the last native action.
#[derive(Debug, Clone, PartialEq, Eq)]
pub enum OpenEvent {
    DeviceOpened,
    /// The device could not be acquired; the OS error code, 0 if none.
    DeviceFailed(i32),
    BlockRead(ControlBlock),
    BlockReadFailed(i32),
    BlockWritten,
    BlockWriteFailed(i32),
    /// Which of the two events were created, and the OS error code if one was not.
    EventsCreated { read: bool, write: bool, code: i32 },
}

/// The next native action to perform.
#[derive(Debug, Clone, PartialEq, Eq)]
pub enum OpenAction {
    /// Acquire the device for reading and writing, in overlapped mode.
    OpenDevice,
    /// Duplicate the device handle of the port being cloned.
    DuplicateDevice,
    /// Read the device's control block.
    ReadBlock,
    /// Write this control block to the device.
    WriteBlock(ControlBlock),
    /// Create the read and the write completion events.
    CreateEvents,
    /// The port is open.
    Finish,
    /// Release these resources (the events before the device), then fail with the error.
    Abort { release: Held, error: Error },
}

/// What is held once the resources that the event reports acquired are added.
pub open spec fn held_after(h: Held, e: OpenEvent) -> Held {
    match e {
        OpenEvent::DeviceOpened => Held { device: true, ..h },
        OpenEvent::EventsCreated { read, write, code } => Held {
            read_event: h.read_event || read,
            write_event: h.write_event || write,
            ..h
        },
        _ => h,
    }
}

fn acquired(h: Held, e: &OpenEvent) -> (r: Held)
    ensures
        r == held_after(h, *e),
{
    match e {
        OpenEvent::DeviceOpened => Held { device: true, ..h },
        OpenEvent::EventsCreated { read, write, code: _ } => Held {
            device: h.device,
            read_event: h.read_event || *read,
            write_event: h.write_event || *write,
        },
        _ => h,
    }
}

/// The life of one port: what it holds and with which settings it is opened.
pub struct PortLifecycle {
    pub phase: Phase,
    pub held: Held,
    pub settings: PortSettings,
}

impl PortLifecycle {
    /// Holdings agree with the phase.
    pub open spec fn wf(&self) -> bool {
        match self.phase {
            Phase::Acquiring | Phase::Duplicating | Phase::Failed | Phase::Closed => self.held
                == nothing_held(),
            Phase::ReadingBlock | Phase::WritingBlock | Phase::CreatingEvents => self.held == (Held {
                device: true,
                read_event: false,
                write_event: false,
            }),
            Phase::Ready => self.held == all_held(),
        }
    }

    /// Starts opening a port with the given settings; the first action acquires the device.
    pub fn begin(settings: PortSettings) -> (r: (PortLifecycle, OpenAction))
        ensures
            r.0.wf(),
            r.0.phase == Phase::Acquiring,
            r.0.settings == settings,
            r.1 == OpenAction::OpenDevice,
    {
        (
            PortLifecycle {
                phase: Phase::Acquiring,
                held: Held { device: false, read_event: false, write_event: false },
                settings,
            },
            OpenAction::OpenDevice,
        )
    }

    /// Starts a second, independently closable port on the device of an open one:
    /// the device handle is duplicated and the new port gets its own events; the
    /// control block is not written again.
    pub fn begin_duplicate(settings: PortSettings) -> (r: (PortLifecycle, OpenAction))
        ensures
            r.0.wf(),
            r.0.phase == Phase::Duplicating,
            r.0.settings == settings,
            r.1 == OpenAction::DuplicateDevice,
    {
        (
            PortLifecycle {
                phase: Phase::Duplicating,
                held: Held { device: false, read_event: false, write_event: false },
                settings,
            },
            OpenAction::DuplicateDevice,
        )
    }

    fn abort(&mut self, error: Error) -> (r: OpenAction)
        ensures
            r == (OpenAction::Abort { release: old(self).held, error }),
            final(self).phase == Phase::Failed,
            final(self).held == nothing_held(),
            final(self).settings == old(self).settings,
    {
        let release = self.held;
        self.phase = Phase::Failed;
        self.held = Held { device: false, read_event: false, write_event: false };
        OpenAction::Abort { release, error }
    }

    /// Takes the outcome of the last action and gives the next one. Whatever fails,
    /// the abort releases exactly what is held, counting what the event reports
    /// acquired, so a failed open holds nothing.
    pub fn step(&mut self, event: OpenEvent) -> (r: OpenAction)
        ensures
            final(self).wf(),
            final(self).settings == old(self).settings,
            r is Abort ==> r->release == held_after(old(self).held, event) && final(self).phase
                == Phase::Failed,
            r is Finish ==> final(self).phase == Phase::Ready && final(self).held == all_held(),
            old(self).phase == Phase::Acquiring ==> (match event {
                OpenEvent::DeviceOpened => r == OpenAction::ReadBlock && final(self).phase
                    == Phase::ReadingBlock,
                OpenEvent::DeviceFailed(c) => r == (OpenAction::Abort {
                    release: old(self).held,
                    error: os_error(c),
                }),
                _ => r is Abort,
            }),
            old(self).phase == Phase::Duplicating ==> (match event {
                OpenEvent::DeviceOpened => r == OpenAction::CreateEvents && final(self).phase
                    == Phase::CreatingEvents,
                OpenEvent::DeviceFailed(c) => r == (OpenAction::Abort {
                    release: old(self).held,
                    error: os_error(c),
                }),
                _ => r is Abort,
            }),
            old(self).phase == Phase::ReadingBlock ==> (match event {
                OpenEvent::BlockRead(b) => if crate::settings_known(old(self).settings) {
                    r == OpenAction::WriteBlock(native_of(old(self).settings, defaults_applied(b)))
                        && final(self).phase == Phase::WritingBlock
                } else {
                    r is Abort && is_invalid_input::<()>(
                        Err(r->error),
                        unknown_field_message(old(self).settings),
                    )
                },
                OpenEvent::BlockReadFailed(c) => r == (OpenAction::Abort {
                    release: old(self).held,
                    error: os_error(c),
                }),
                _ => r is Abort,
            }),
            old(self).phase == Phase::WritingBlock ==> (match event {
                OpenEvent::BlockWritten => r == OpenAction::CreateEvents && final(self).phase
                    == Phase::CreatingEvents,
                OpenEvent::BlockWriteFailed(c) => r == (OpenAction::Abort {
                    release: old(self).held,
                    error: os_error(c),
                }),
                _ => r is Abort,
            }),
            old(self).phase == Phase::CreatingEvents ==> (match event {
                OpenEvent::EventsCreated { read, write, code } => if read && write {
                    r == OpenAction::Finish
                } else {
                    r == (OpenAction::Abort {
                        release: held_after(old(self).held, event),
                        error: os_error(code),
                    })
                },
                _ => r is Abort,
            }),
            old(self).phase == Phase::Ready || old(self).phase == Phase::Failed || old(self).phase
                == Phase::Closed ==> r is Abort && r->error == Error::Unknown,
    {
        let now_held = acquired(self.held, &event);
        match (self.phase, event) {
            (Phase::Acquiring, OpenEvent::DeviceOpened) => {
                self.phase = Phase::ReadingBlock;
                self.held = Held { device: true, read_event: false, write_event: false };
                OpenAction::ReadBlock
            },
            (Phase::Acquiring, OpenEvent::DeviceFailed(c)) => self.abort(error_from_os(c)),
            (Phase::Duplicating, OpenEvent::DeviceOpened) => {
                self.phase = Phase::CreatingEvents;
                self.held = Held { device: true, read_event: false, write_event: false };
                OpenAction::CreateEvents
            },
            (Phase::Duplicating, OpenEvent::DeviceFailed(c)) => self.abort(error_from_os(c)),
            (Phase::ReadingBlock, OpenEvent::BlockRead(b)) => {
                let mut block = b;
                apply_defaults(&mut block);
                match to_native(&self.settings, &block) {
                    Ok(configured) => {
                        self.phase = Phase::WritingBlock;
                        self.held = Held { device: true, read_event: false, write_event: false };
                        OpenAction::WriteBlock(configured)
                    },
                    Err(e) => self.abort(e),
                }
            },
            (Phase::ReadingBlock, OpenEvent::BlockReadFailed(c)) => self.abort(error_from_os(c)),
            (Phase::WritingBlock, OpenEvent::BlockWritten) => {
                self.phase = Phase::CreatingEvents;
                self.held = Held { device: true, read_event: false, write_event: false };
                OpenAction::CreateEvents
            },
            (Phase::WritingBlock, OpenEvent::BlockWriteFailed(c)) => self.abort(error_from_os(c)),
            (Phase::CreatingEvents, OpenEvent::EventsCreated { read, write, code }) => {
                if read && write {
                    self.phase = Phase::Ready;
                    self.held = Held { device: true, read_event: true, write_event: true };
                    OpenAction::Finish
                } else {
                    self.held = now_held;
                    self.abort(error_from_os(code))
                }
            },
            _ => {
                self.held = now_held;
                self.abort(Error::Unknown)
            },
        }
    }

    /// Closes the port: gives what to release (the events before the device) and
    /// holds nothing afterwards. A second close releases nothing.
    pub fn close(&mut self) -> (r: Held)
        ensures
            final(self).wf(),
            r == old(self).held,
            *final(self) == after_close(*old(self)),
    {
        let release = self.held;
        self.held = Held { device: false, read_event: false, write_event: false };
        self.phase = match self.phase {
            Phase::Ready | Phase::Closed => Phase::Closed,
            _ => Phase::Failed,
        };
        release
    }

    /// Succeeds only while the port is open; a released port gives `NoDevice`.
    pub fn check_open(&self) -> (r: Result<(), Error>)
        ensures
            self.phase == Phase::Ready <==> r is Ok,
            r is Err ==> r == Err::<(), Error>(Error::NoDevice),
    {
        match self.phase {
            Phase::Ready => Ok(()),
            _ => Err(Error::NoDevice),
        }
    }
}

/// The port after a close.
pub open spec fn after_close(p: PortLifecycle) -> PortLifecycle {
    PortLifecycle {
        phase: if p.phase == Phase::Ready || p.phase == Phase::Closed {
            Phase::Closed
        } else {
            Phase::Failed
        },
        held: nothing_held(),
        settings: p.settings,
    }
}

/// Closing twice releases each resource once: the second close releases nothing
/// and leaves the port as the first close left it.
pub proof fn lemma_close_idempotent(p: PortLifecycle)
    ensures
        after_close(p).wf(),
        after_close(after_close(p)) == after_close(p),
        after_close(p).held == nothing_held(),
{
}

} // verus!
