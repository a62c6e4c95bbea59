//! The rules of the camera capture loop: how a capture session moves between
//! its states as the device answers, and what the driver of the loop is to do
//! next. The driver owns the device; the session only decides.

use vstd::prelude::*;

verus! {

/// The index of the camera device.
pub const DEVICE_INDEX: i32 = 0;

/// The frame width asked of the device.
pub const FRAME_WIDTH: i32 = 320;

/// The frame height asked of the device.
pub const FRAME_HEIGHT: i32 = 240;

/// The frame rate asked of the device.
pub const FRAME_RATE: i32 = 15;

/// The number of frames the device is asked to buffer.
pub const BUFFER_DEPTH: i32 = 1;

/// The quality at which frames are compressed.
pub const JPEG_QUALITY: i32 = 60;

/// The number of frames read and thrown away after the device was opened.
pub const WARMUP_READS: u32 = 5;

/// The wait after each warm-up read, in milliseconds.
pub const WARMUP_DELAY_MS: u64 = 100;

/// The number of failed reads in a row after which the device is reopened.
pub const MAX_FAILURES: u32 = 3;

/// The wait between closing the device and opening it again, in milliseconds.
pub const COOLDOWN_MS: u64 = 2000;

/// The wait between two reads, in milliseconds.
pub const FRAME_INTERVAL_MS: u64 = 66;

/// The wait before a capture loop that has ended is started again, in
/// milliseconds.
pub const RESTART_DELAY_MS: u64 = 5000;

/// One setting applied to the device after it was opened. Each is applied as
/// far as the device allows: a setting that the device refuses is passed over.
#[derive(Clone, Copy, Debug, PartialEq, Eq, Structural)]
pub enum Setting {
    /// The preferred compressed pixel format, by its four-character code.
    PixelFormat(char, char, char, char),
    /// The frame width.
    Width(i32),
    /// The frame height.
    Height(i32),
    /// The frame rate.
    FrameRate(i32),
    /// The depth of the device's own frame buffer.
    BufferDepth(i32),
    /// Whether the device sets the exposure by itself.
    AutoExposure(bool),
    /// Whether the device focuses by itself.
    AutoFocus(bool),
}

/// The settings of the device, in the order in which they are applied.
pub open spec fn device_settings() -> Seq<Setting> {
    seq![
        Setting::PixelFormat('M', 'J', 'P', 'G'),
        Setting::Width(FRAME_WIDTH),
        Setting::Height(FRAME_HEIGHT),
        Setting::FrameRate(FRAME_RATE),
        Setting::BufferDepth(BUFFER_DEPTH),
        Setting::AutoExposure(false),
        Setting::AutoFocus(false),
    ]
}

/// The settings to apply to a device that was just opened.
pub fn settings() -> (list: Vec<Setting>)
    ensures
        list@ == device_settings(),
{
    let mut list: Vec<Setting> = Vec::new();
    list.push(Setting::PixelFormat('M', 'J', 'P', 'G'));
    list.push(Setting::Width(FRAME_WIDTH));
    list.push(Setting::Height(FRAME_HEIGHT));
    list.push(Setting::FrameRate(FRAME_RATE));
    list.push(Setting::BufferDepth(BUFFER_DEPTH));
    list.push(Setting::AutoExposure(false));
    list.push(Setting::AutoFocus(false));
    assert(list@ =~= device_settings());
    list
}

/// The states of a capture session.
#[derive(Clone, Copy, Debug, PartialEq, Eq, Structural)]
pub enum CaptureState {
    /// No device is held and none has been asked for.
    Closed,
    /// The device is being opened, or has been opened and is warming up.
    Opening,
    /// Frames are being read.
    Capturing,
    /// Too many reads in a row have failed; the device is being reopened.
    Degraded,
    /// The loop has ended.
    Terminated,
}

/// Why a capture loop ended.
#[derive(Clone, Copy, Debug, PartialEq, Eq, Structural)]
pub enum Exit {
    /// The device could not be opened when the loop started.
    OpenFailed,
    /// The device could not be opened again after it was lost.
    ReopenFailed,
    /// Nobody takes the frames any more.
    ConsumerGone,
}

impl Exit {
    /// Whether the loop reports a failure to whoever started it. Only a
    /// device that never opened does; a device that was lost later, and a
    /// consumer that went away, end the loop quietly.
    pub open spec fn failed(self) -> bool {
        self == Exit::OpenFailed
    }

    /// Whether the loop reports a failure to whoever started it.
    pub fn is_failure(self) -> (failed: bool)
        ensures
            failed == self.failed(),
    {
        match self {
            Exit::OpenFailed => true,
            _ => false,
        }
    }
}

/// What one read of the device gave.
#[derive(Clone, Copy, Debug, PartialEq, Eq, Structural)]
pub enum ReadOutcome {
    /// A frame with content.
    Frame,
    /// A frame without content.
    Empty,
    /// No frame: the device had none to give.
    NoFrame,
    /// An error.
    Error,
}

impl ReadOutcome {
    /// Whether the read counts as failed: every read does that gave no frame
    /// with content.
    pub open spec fn missed(self) -> bool {
        self != ReadOutcome::Frame
    }
}

/// What the driver tells the session.
#[derive(Clone, Copy, Debug, PartialEq, Eq, Structural)]
pub enum Signal {
    /// The loop starts.
    Start,
    /// The device was asked for: it is open and set up, or it is not.
    Opened(bool),
    /// A warm-up read is over.
    WarmedUp(ReadOutcome),
    /// A read is over.
    Read(ReadOutcome),
    /// The frame was compressed and handed to the queue, which took it or,
    /// its consumer gone, did not.
    Published(bool),
    /// The frame could not be compressed.
    Unencodable,
}

/// What the driver is to do next.
#[derive(Clone, Copy, Debug, PartialEq, Eq, Structural)]
pub enum Action {
    /// Open the device `device` and apply the settings; answer with `Opened`.
    Open { device: i32 },
    /// Read one frame and throw it away, then, unless the read raised an
    /// error, wait for `delay_ms` milliseconds; answer with `WarmedUp`.
    WarmUp { delay_ms: u64 },
    /// Wait for `delay_ms` milliseconds, then read one frame; answer with
    /// `Read`.
    Read { delay_ms: u64 },
    /// Compress the frame that was just read at the quality `quality` and
    /// hand it over; answer with `Published`, or with `Unencodable` where it
    /// cannot be compressed.
    Encode { quality: i32 },
    /// Close the device, wait for `cooldown_ms` milliseconds, then open the
    /// device `device` and apply the settings; answer with `Opened`.
    Reopen { cooldown_ms: u64, device: i32 },
    /// Leave the loop.
    Stop,
    /// The signal answered nothing the session had asked for: go on as
    /// before.
    Ignore,
}

/// A capture session as plain values.
pub struct SessionModel {
    /// The state.
    pub state: CaptureState,
    /// The number of reads that have failed in a row.
    pub failures: nat,
    /// The number of warm-up reads still to come; zero while the device has
    /// not answered yet.
    pub warmups_left: nat,
    /// Whether a frame has been read that is still to be compressed and
    /// handed over.
    pub encoding: bool,
    /// Whether the device has been lost and opened again since the start.
    pub reopened: bool,
    /// Why the loop ended, once it has.
    pub exit: Option<Exit>,
}

impl SessionModel {
    /// The session before the loop starts.
    pub open spec fn initial() -> SessionModel {
        SessionModel {
            state: CaptureState::Closed,
            failures: 0,
            warmups_left: 0,
            encoding: false,
            reopened: false,
            exit: None,
        }
    }

    /// What holds of every session that started from the initial one.
    pub open spec fn valid(self) -> bool {
        &&& self.failures <= MAX_FAILURES
        &&& self.warmups_left <= WARMUP_READS
        &&& (self.state == CaptureState::Terminated) == self.exit.is_some()
        &&& (self.encoding ==> self.state == CaptureState::Capturing && self.failures == 0)
        &&& match self.state {
            CaptureState::Closed => self.failures == 0 && self.warmups_left == 0 && !self.reopened,
            CaptureState::Opening => self.failures == 0,
            CaptureState::Capturing => self.failures < MAX_FAILURES && self.warmups_left == 0,
            CaptureState::Degraded => self.failures == MAX_FAILURES && self.warmups_left == 0,
            CaptureState::Terminated => self.warmups_left == 0,
        }
    }

    /// The session after the loop has ended for the reason `exit`.
    pub open spec fn ended(self, exit: Exit) -> SessionModel {
        SessionModel {
            state: CaptureState::Terminated,
            warmups_left: 0,
            encoding: false,
            exit: Some(exit),
            ..self
        }
    }

    /// Why the loop ends when the device does not open.
    pub open spec fn open_failure(self) -> Exit {
        if self.reopened {
            Exit::ReopenFailed
        } else {
            Exit::OpenFailed
        }
    }

    /// The wait before the first read after the warm-up. The loop that has
    /// just started reads at once; the one that reopened its device ends its
    /// round with the usual wait.
    pub open spec fn first_read_delay(self) -> u64 {
        if self.reopened {
            FRAME_INTERVAL_MS
        } else {
            0
        }
    }

    /// The session after a read that failed: one more failure is counted,
    /// and with the last that the limit allows the device is given up.
    pub open spec fn after_miss(self) -> (SessionModel, Action) {
        if self.failures + 1 < MAX_FAILURES {
            (
                SessionModel { failures: self.failures + 1, ..self },
                Action::Read { delay_ms: FRAME_INTERVAL_MS },
            )
        } else {
            (
                SessionModel {
                    state: CaptureState::Degraded,
                    failures: MAX_FAILURES as nat,
                    ..self
                },
                Action::Reopen { cooldown_ms: COOLDOWN_MS, device: DEVICE_INDEX },
            )
        }
    }

    /// The session after `signal`, and what the driver is to do next.
    pub open spec fn next(self, signal: Signal) -> (SessionModel, Action) {
        match self.state {
            CaptureState::Closed => match signal {
                Signal::Start => (
                    SessionModel { state: CaptureState::Opening, ..self },
                    Action::Open { device: DEVICE_INDEX },
                ),
                _ => (self, Action::Ignore),
            },
            CaptureState::Opening => match signal {
                Signal::Opened(ok) => if self.warmups_left != 0 {
                    (self, Action::Ignore)
                } else if ok {
                    (
                        SessionModel { warmups_left: WARMUP_READS as nat, ..self },
                        Action::WarmUp { delay_ms: WARMUP_DELAY_MS },
                    )
                } else {
                    (self.ended(self.open_failure()), Action::Stop)
                },
                Signal::WarmedUp(outcome) => if self.warmups_left == 0 {
                    (self, Action::Ignore)
                } else if outcome == ReadOutcome::Error {
                    (self.ended(self.open_failure()), Action::Stop)
                } else if self.warmups_left > 1 {
                    (
                        SessionModel { warmups_left: (self.warmups_left - 1) as nat, ..self },
                        Action::WarmUp { delay_ms: WARMUP_DELAY_MS },
                    )
                } else {
                    (
                        SessionModel {
                            state: CaptureState::Capturing,
                            failures: 0,
                            warmups_left: 0,
                            ..self
                        },
                        Action::Read { delay_ms: self.first_read_delay() },
                    )
                },
                _ => (self, Action::Ignore),
            },
            CaptureState::Capturing => if self.encoding {
                match signal {
                    Signal::Published(true) | Signal::Unencodable => (
                        SessionModel { encoding: false, ..self },
                        Action::Read { delay_ms: FRAME_INTERVAL_MS },
                    ),
                    Signal::Published(false) => (self.ended(Exit::ConsumerGone), Action::Stop),
                    _ => (self, Action::Ignore),
                }
            } else {
                match signal {
                    Signal::Read(ReadOutcome::Frame) => (
                        SessionModel { failures: 0, encoding: true, ..self },
                        Action::Encode { quality: JPEG_QUALITY },
                    ),
                    Signal::Read(_) => self.after_miss(),
                    _ => (self, Action::Ignore),
                }
            },
            CaptureState::Degraded => match signal {
                Signal::Opened(true) => (
                    SessionModel {
                        state: CaptureState::Opening,
                        failures: 0,
                        warmups_left: WARMUP_READS as nat,
                        reopened: true,
                        ..self
                    },
                    Action::WarmUp { delay_ms: WARMUP_DELAY_MS },
                ),
                Signal::Opened(false) => (self.ended(Exit::ReopenFailed), Action::Stop),
                _ => (self, Action::Ignore),
            },
            CaptureState::Terminated => (self, Action::Stop),
        }
    }

    /// The session after a run of signals.
    pub open spec fn run(self, signals: Seq<Signal>) -> SessionModel
        decreases signals.len(),
    {
        if signals.len() == 0 {
            self
        } else {
            self.run(signals.drop_last()).next(signals.last()).0
        }
    }

    /// What the driver was told after each signal of a run.
    pub open spec fn answers(self, signals: Seq<Signal>) -> Seq<Action>
        decreases signals.len(),
    {
        if signals.len() == 0 {
            Seq::empty()
        } else {
            self.answers(signals.drop_last()).push(
                self.run(signals.drop_last()).next(signals.last()).1,
            )
        }
    }
}

/// The number of times a run of answers asks for the device to be reopened.
pub open spec fn reopenings(answers: Seq<Action>) -> nat
    decreases answers.len(),
{
    if answers.len() == 0 {
        0
    } else {
        reopenings(answers.drop_last()) + if answers.last() is Reopen {
            1nat
        } else {
            0nat
        }
    }
}

/// A capture session: the state of one run of the capture loop.
pub struct CaptureSession {
    state: CaptureState,
    failures: u32,
    warmups_left: u32,
    encoding: bool,
    reopened: bool,
    exit: Option<Exit>,
}

impl View for CaptureSession {
    type V = SessionModel;

    closed spec fn view(&self) -> SessionModel {
        SessionModel {
            state: self.state,
            failures: self.failures as nat,
            warmups_left: self.warmups_left as nat,
            encoding: self.encoding,
            reopened: self.reopened,
            exit: self.exit,
        }
    }
}

impl CaptureSession {
    #[verifier::type_invariant]
    spec fn well_formed(self) -> bool {
        self@.valid()
    }

    /// A session before its loop starts.
    pub fn new() -> (session: CaptureSession)
        ensures
            session@ == SessionModel::initial(),
    {
        CaptureSession {
            state: CaptureState::Closed,
            failures: 0,
            warmups_left: 0,
            encoding: false,
            reopened: false,
            exit: None,
        }
    }

    /// The state of the session.
    pub fn state(&self) -> (state: CaptureState)
        ensures
            state == self@.state,
    {
        self.state
    }

    /// The number of reads that have failed in a row.
    pub fn failures(&self) -> (failures: u32)
        ensures
            failures == self@.failures,
            failures <= MAX_FAILURES,
    {
        proof {
            use_type_invariant(self);
        }
        self.failures
    }

    /// Whether a frame has been read that is still to be compressed and
    /// handed over.
    pub fn encoding(&self) -> (encoding: bool)
        ensures
            encoding == self@.encoding,
    {
        self.encoding
    }

    /// Why the loop ended; `None` while it has not.
    pub fn exit(&self) -> (exit: Option<Exit>)
        ensures
            exit == self@.exit,
            exit.is_some() == (self@.state == CaptureState::Terminated),
    {
        proof {
            use_type_invariant(self);
        }
        self.exit
    }

    /// Takes one signal from the driver, moves the session on and says what
    /// the driver is to do next.
    pub fn advance(&mut self, signal: Signal) -> (action: Action)
        ensures
            old(self)@.valid(),
            final(self)@.valid(),
            (final(self)@, action) == old(self)@.next(signal),
    {
        proof {
            use_type_invariant(&*self);
        }
        let (after, action) = match self.state {
            CaptureState::Closed => match signal {
                Signal::Start => (
                    CaptureSession {
                        state: CaptureState::Opening,
                        failures: 0,
                        warmups_left: 0,
                        encoding: false,
                        reopened: false,
                        exit: None,
                    },
                    Action::Open { device: DEVICE_INDEX },
                ),
                _ => (self.copy(), Action::Ignore),
            },
            CaptureState::Opening => match signal {
                Signal::Opened(ok) => if self.warmups_left != 0 {
                    (self.copy(), Action::Ignore)
                } else if ok {
                    (self.warming_up(WARMUP_READS), Action::WarmUp { delay_ms: WARMUP_DELAY_MS })
                } else {
                    (self.end(self.open_failure()), Action::Stop)
                },
                Signal::WarmedUp(outcome) => if self.warmups_left == 0 {
                    (self.copy(), Action::Ignore)
                } else if outcome == ReadOutcome::Error {
                    (self.end(self.open_failure()), Action::Stop)
                } else if self.warmups_left > 1 {
                    (
                        self.warming_up(self.warmups_left - 1),
                        Action::WarmUp { delay_ms: WARMUP_DELAY_MS },
                    )
                } else {
                    (
                        self.capturing(0, false),
                        Action::Read {
                            delay_ms: if self.reopened {
                                FRAME_INTERVAL_MS
                            } else {
                                0
                            },
                        },
                    )
                },
                _ => (self.copy(), Action::Ignore),
            },
            CaptureState::Capturing => if self.encoding {
                match signal {
                    Signal::Published(true) | Signal::Unencodable => (
                        self.capturing(0, false),
                        Action::Read { delay_ms: FRAME_INTERVAL_MS },
                    ),
                    Signal::Published(false) => (self.end(Exit::ConsumerGone), Action::Stop),
                    _ => (self.copy(), Action::Ignore),
                }
            } else {
                match signal {
                    Signal::Read(ReadOutcome::Frame) => (
                        self.capturing(0, true),
                        Action::Encode { quality: JPEG_QUALITY },
                    ),
                    Signal::Read(_) => if self.failures + 1 < MAX_FAILURES {
                        (
                            self.capturing(self.failures + 1, false),
                            Action::Read { delay_ms: FRAME_INTERVAL_MS },
                        )
                    } else {
                        (
                            CaptureSession {
                                state: CaptureState::Degraded,
                                failures: MAX_FAILURES,
                                warmups_left: 0,
                                encoding: false,
                                reopened: self.reopened,
                                exit: None,
                            },
                            Action::Reopen { cooldown_ms: COOLDOWN_MS, device: DEVICE_INDEX },
                        )
                    },
                    _ => (self.copy(), Action::Ignore),
                }
            },
            CaptureState::Degraded => match signal {
                Signal::Opened(true) => (
                    CaptureSession {
                        state: CaptureState::Opening,
                        failures: 0,
                        warmups_left: WARMUP_READS,
                        encoding: false,
                        reopened: true,
                        exit: None,
                    },
                    Action::WarmUp { delay_ms: WARMUP_DELAY_MS },
                ),
                Signal::Opened(false) => (self.end(Exit::ReopenFailed), Action::Stop),
                _ => (self.copy(), Action::Ignore),
            },
            CaptureState::Terminated => (self.copy(), Action::Stop),
        };
        *self = after;
        action
    }

    /// Puts the session back to where a loop starts, whatever state it is
    /// in and however its loop ended, and gives the wait before the loop is
    /// started again. The wait is always the same: it does not grow, and no
    /// number of restarts is the last.
    pub fn restart(&mut self) -> (delay_ms: u64)
        ensures
            final(self)@ == SessionModel::initial(),
            delay_ms == RESTART_DELAY_MS,
    {
        *self = CaptureSession::new();
        RESTART_DELAY_MS
    }

    fn open_failure(&self) -> (exit: Exit)
        ensures
            exit == self@.open_failure(),
    {
        if self.reopened {
            Exit::ReopenFailed
        } else {
            Exit::OpenFailed
        }
    }

    fn copy(&self) -> (same: CaptureSession)
        ensures
            same@ == self@,
    {
        proof {
            use_type_invariant(self);
        }
        CaptureSession {
            state: self.state,
            failures: self.failures,
            warmups_left: self.warmups_left,
            encoding: self.encoding,
            reopened: self.reopened,
            exit: self.exit,
        }
    }

    fn warming_up(&self, warmups_left: u32) -> (changed: CaptureSession)
        requires
            self@.state == CaptureState::Opening,
            warmups_left <= WARMUP_READS,
        ensures
            changed@ == (SessionModel { warmups_left: warmups_left as nat, ..self@ }),
    {
        proof {
            use_type_invariant(self);
        }
        CaptureSession {
            state: CaptureState::Opening,
            failures: 0,
            warmups_left,
            encoding: false,
            reopened: self.reopened,
            exit: None,
        }
    }

    fn capturing(&self, failures: u32, encoding: bool) -> (changed: CaptureSession)
        requires
            self@.state == CaptureState::Opening || self@.state == CaptureState::Capturing,
            failures < MAX_FAILURES,
            encoding ==> failures == 0,
        ensures
            changed@ == (SessionModel {
                state: CaptureState::Capturing,
                failures: failures as nat,
                warmups_left: 0,
                encoding,
                ..self@
            }),
    {
        proof {
            use_type_invariant(self);
        }
        CaptureSession {
            state: CaptureState::Capturing,
            failures,
            warmups_left: 0,
            encoding,
            reopened: self.reopened,
            exit: None,
        }
    }

    fn end(&self, exit: Exit) -> (ended: CaptureSession)
        ensures
            ended@ == self@.ended(exit),
    {
        proof {
            use_type_invariant(self);
        }
        CaptureSession {
            state: CaptureState::Terminated,
            failures: self.failures,
            warmups_left: 0,
            encoding: false,
            reopened: self.reopened,
            exit: Some(exit),
        }
    }
}

} // verus!
