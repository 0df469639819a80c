//! The playback sink's lifecycle state machine.
//!
//! A sink is bound to one device name and is either closed or open; the
//! handle field carries the negotiated parameters exactly while the sink is
//! open. Each lifecycle operation is split into a decision, taken here, and
//! the device work it requests, performed by the driver, whose outcome is
//! handed back to a completion function here: start opens and configures the
//! device unless the sink is already open, write submits frames only while
//! open and answers a failed submission with a non-silent recovery, and stop
//! drains the device and always leaves the sink closed.

use vstd::prelude::*;

use crate::params::{DeviceCaps, NegotiationError, PcmParams, SinkConfig};

verus! {

/// A failure the device reported, carried through unchanged.
#[derive(Clone, Copy, PartialEq, Eq, Structural, Debug)]
pub struct DeviceFailure {
    pub errno: i32,
}

/// The errors a lifecycle operation can return to the caller.
#[derive(Clone, Copy, PartialEq, Eq, Structural, Debug)]
pub enum SinkError {
    /// A write was requested while the sink was closed.
    NotOpen,
    /// The device could not be opened and configured; the sink stays closed.
    OpenFailed,
    /// A write failed and the recovery attempt failed too.
    WriteFatal,
    /// The drain during a stop failed; the sink is closed regardless.
    DrainFailed,
}

/// Where an attempt to open and configure the device broke down.
#[derive(Clone, Copy, PartialEq, Eq, Structural, Debug)]
pub enum StartFailure {
    /// Opening the named device failed.
    DeviceOpen(DeviceFailure),
    /// The device's capabilities rejected the negotiation targets.
    Negotiation(NegotiationError),
    /// Applying the negotiated parameter set to the device failed.
    Apply(DeviceFailure),
}

/// One playback endpoint binding. The handle holds the negotiated parameters
/// if and only if the sink is open.
pub struct AlsaSink {
    pub handle: Option<PcmParams>,
    pub device_name: String,
}

/// What constructing a sink from a caller-supplied selector yields.
pub enum SinkRequest {
    /// The selector was the listing sentinel: enumerate devices instead.
    ListOutputs,
    /// A closed sink bound to the resolved device name.
    Playback(AlsaSink),
}

/// The device work a start needs: open this device and configure it.
pub struct StartRequest {
    pub device: String,
    pub config: SinkConfig,
}

/// The decision a start begins with.
pub enum StartStep {
    /// The operation is finished now, with this result.
    Done(Result<(), SinkError>),
    /// The device must be opened and configured first.
    NeedsOpen(StartRequest),
}

/// The decision a stop begins with.
#[derive(Clone, Copy, PartialEq, Eq, Debug)]
pub enum StopStep {
    /// The operation is finished now, with this result.
    Done(Result<(), SinkError>),
    /// The open device must be drained first.
    NeedsDrain,
}

/// What to do after the device answered a write.
#[derive(Clone, Copy, PartialEq, Eq, Structural, Debug)]
pub enum WriteStep {
    /// The frames were accepted; a short count is not an error.
    Done,
    /// The device must be recovered; `silent` tells the driver whether to
    /// suppress the underrun report.
    Recover { silent: bool },
}

/// True when a start must open the device: only while the sink is closed.
pub open spec fn start_needed_spec(s: AlsaSink) -> bool {
    s.handle is None
}

/// How a start's device outcome changes the sink and what it returns: a
/// configured device opens the sink, any failure leaves it closed.
pub open spec fn complete_start_spec(s: AlsaSink, outcome: Result<PcmParams, StartFailure>) -> (
    AlsaSink,
    Result<(), SinkError>,
) {
    match outcome {
        Ok(p) => (AlsaSink { handle: Some(p), ..s }, Ok(())),
        Err(_) => (s, Err(SinkError::OpenFailed)),
    }
}

/// How a stop's drain outcome changes the sink and what it returns: the sink
/// closes either way, and a drain failure still surfaces.
pub open spec fn complete_stop_spec(s: AlsaSink, drain: Result<(), DeviceFailure>) -> (
    AlsaSink,
    Result<(), SinkError>,
) {
    (
        AlsaSink { handle: None, ..s },
        match drain {
            Ok(_) => Ok(()),
            Err(_) => Err(SinkError::DrainFailed),
        },
    )
}

/// What follows a write's outcome: an accepted write is done, a failed one
/// asks for a recovery that is told the stream really did underrun.
pub open spec fn write_step_spec(outcome: Result<usize, DeviceFailure>) -> WriteStep {
    match outcome {
        Ok(_) => WriteStep::Done,
        Err(_) => WriteStep::Recover { silent: false },
    }
}

/// What a write returns once recovery was attempted: a recovered stream
/// reports success, a failed recovery is fatal to the write.
pub open spec fn recover_verdict_spec(outcome: Result<(), DeviceFailure>) -> Result<
    (),
    SinkError,
> {
    match outcome {
        Ok(_) => Ok(()),
        Err(_) => Err(SinkError::WriteFatal),
    }
}

impl AlsaSink {
    /// Resolve a caller-supplied device selector: the sentinel `?` requests
    /// the enumeration listing, any other name binds a closed sink to it,
    /// and no selector binds to the system default device.
    pub fn open(device: Option<String>) -> (r: SinkRequest)
        ensures
            device is None ==> (r matches SinkRequest::Playback(s) && s.handle is None
                && s.device_name@ == "default"@),
            device matches Some(name) ==> (if name@ == "?"@ {
                r is ListOutputs
            } else {
                r matches SinkRequest::Playback(s) && s.handle is None && s.device_name@ == name@
            }),
    {
        match device {
            Some(name) => {
                let sentinel = String::from_str("?");
                if name == sentinel {
                    SinkRequest::ListOutputs
                } else {
                    SinkRequest::Playback(AlsaSink { handle: None, device_name: name })
                }
            },
            None => SinkRequest::Playback(
                AlsaSink { handle: None, device_name: String::from_str("default") },
            ),
        }
    }

    /// True while the sink holds a configured device.
    pub fn is_open(&self) -> (b: bool)
        ensures
            b == (self.handle is Some),
    {
        self.handle.is_some()
    }

    /// Begin a start. An open sink is left untouched and the start succeeds
    /// at once; a closed sink asks for its device to be opened and
    /// configured under the given configuration.
    pub fn begin_start(&self, config: SinkConfig) -> (r: StartStep)
        ensures
            self.handle is Some ==> r == StartStep::Done(Result::<(), SinkError>::Ok(())),
            self.handle is None ==> (r matches StartStep::NeedsOpen(req) && req.device@
                == self.device_name@ && req.config == config),
    {
        if self.is_open() {
            StartStep::Done(Ok(()))
        } else {
            StartStep::NeedsOpen(StartRequest { device: self.device_name.clone(), config })
        }
    }

    /// Finish a start with the device outcome the driver obtained.
    pub fn complete_start(&mut self, outcome: Result<PcmParams, StartFailure>) -> (r: Result<
        (),
        SinkError,
    >)
        requires
            old(self).handle is None,
        ensures
            (*final(self), r) == complete_start_spec(*old(self), outcome),
    {
        match outcome {
            Ok(p) => {
                self.handle = Some(p);
                Ok(())
            },
            Err(_) => Err(SinkError::OpenFailed),
        }
    }

    /// A write may touch the device only while the sink is open; a write
    /// against a closed sink is rejected without reaching the device.
    pub fn begin_write(&self) -> (r: Result<(), SinkError>)
        ensures
            self.handle is Some ==> r == Result::<(), SinkError>::Ok(()),
            self.handle is None ==> r == Result::<(), SinkError>::Err(SinkError::NotOpen),
    {
        if self.is_open() {
            Ok(())
        } else {
            Err(SinkError::NotOpen)
        }
    }

    /// Decide what follows the device's answer to a write.
    pub fn on_write_result(&self, outcome: Result<usize, DeviceFailure>) -> (r: WriteStep)
        requires
            self.handle is Some,
        ensures
            r == write_step_spec(outcome),
    {
        match outcome {
            Ok(_) => WriteStep::Done,
            Err(_) => WriteStep::Recover { silent: false },
        }
    }

    /// Decide what a write returns once a recovery was attempted.
    pub fn on_recover_result(&self, outcome: Result<(), DeviceFailure>) -> (r: Result<
        (),
        SinkError,
    >)
        requires
            self.handle is Some,
        ensures
            r == recover_verdict_spec(outcome),
    {
        match outcome {
            Ok(_) => Ok(()),
            Err(_) => Err(SinkError::WriteFatal),
        }
    }

    /// Begin a stop. A closed sink needs no device work and the stop is a
    /// no-op success; an open sink must be drained first.
    pub fn begin_stop(&self) -> (r: StopStep)
        ensures
            self.handle is None ==> r == StopStep::Done(Result::<(), SinkError>::Ok(())),
            self.handle is Some ==> r == StopStep::NeedsDrain,
    {
        if self.is_open() {
            StopStep::NeedsDrain
        } else {
            StopStep::Done(Ok(()))
        }
    }

    /// Finish a stop with the drain outcome. The handle is released and the
    /// sink is closed whatever the drain reported.
    pub fn complete_stop(&mut self, drain: Result<(), DeviceFailure>) -> (r: Result<
        (),
        SinkError,
    >)
        requires
            old(self).handle is Some,
        ensures
            (*final(self), r) == complete_stop_spec(*old(self), drain),
    {
        self.handle = None;
        match drain {
            Ok(_) => Ok(()),
            Err(_) => Err(SinkError::DrainFailed),
        }
    }
}

/// A start whose negotiation succeeded and a stop whose drain is clean both
/// report success, and the sink ends closed with no handle left behind.
pub proof fn lemma_start_then_stop(s0: AlsaSink, caps: DeviceCaps, config: SinkConfig)
    requires
        s0.handle is None,
        caps.wf(),
        crate::params::negotiate_spec(caps, config) is Ok,
    ensures
        ({
            let p = crate::params::negotiate_spec(caps, config).unwrap();
            let (s1, r1) = complete_start_spec(s0, Ok(p));
            let (s2, r2) = complete_stop_spec(s1, Ok(()));
            &&& r1 == Result::<(), SinkError>::Ok(())
            &&& s1.handle == Some(p)
            &&& r2 == Result::<(), SinkError>::Ok(())
            &&& s2.handle is None
        }),
{
}

/// Starting is idempotent: once a start has opened the sink, a further start
/// needs no device work, so nothing is re-opened or re-negotiated, and it
/// finishes at once as a success.
pub proof fn lemma_start_idempotent(s0: AlsaSink, p: PcmParams)
    requires
        s0.handle is None,
    ensures
        ({
            let (s1, r1) = complete_start_spec(s0, Ok(p));
            !start_needed_spec(s1)
        }),
{
}

/// A failed write asks for a non-silent recovery, and a successful recovery
/// makes the write report success to the caller.
pub proof fn lemma_underrun_recovered(f: DeviceFailure)
    ensures
        write_step_spec(Err(f)) == (WriteStep::Recover { silent: false }),
        recover_verdict_spec(Ok(())) == Result::<(), SinkError>::Ok(()),
{
}

/// A stop closes the sink for every drain outcome; a drain failure still
/// surfaces as an error while the handle is released all the same.
pub proof fn lemma_stop_always_closes(s: AlsaSink, drain: Result<(), DeviceFailure>)
    requires
        s.handle is Some,
    ensures
        ({
            let (s1, r) = complete_stop_spec(s, drain);
            &&& s1.handle is None
            &&& drain is Ok ==> r == Result::<(), SinkError>::Ok(())
            &&& drain is Err ==> r == Result::<(), SinkError>::Err(SinkError::DrainFailed)
        }),
{
}

} // verus!
