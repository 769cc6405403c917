//! The terminal session: the exclusive right to drive the terminal in
//! full-screen interactive mode.
//!
//! Entering switches the device to raw input, the alternate screen buffer
//! and mouse reporting, in that order; leaving reverses the three in the
//! opposite order and makes the cursor visible again, attempting every
//! restoration even when an earlier one fails. The session's flag makes the
//! discipline checkable: a caller can only enter an inactive session and
//! only leave an active one.

use vstd::prelude::*;
use crate::layout::Rect;
use crate::layout::clamp_to_grid;
use crate::render::FrameContent;
use crate::state::InputEvent;

verus! {

/// The error kinds the core reports. Each aborts the render loop; none is
/// retried internally.
#[derive(Clone, Copy, PartialEq, Eq, Structural, Debug)]
pub enum AppError {
    /// The device cannot enter or fully leave interactive mode.
    TerminalUnavailable,
    /// The directory listing could not be enumerated.
    SnapshotUnavailable,
    /// Drawing a frame failed.
    RenderFailure,
    /// The blocking wait for the next input event failed.
    InputReadFailure,
}

impl AppError {
    /// A short description, for reporting once the terminal is restored.
    pub fn describe(&self) -> (r: String)
        ensures
            *self == AppError::TerminalUnavailable ==> r@ == "terminal unavailable"@,
            *self == AppError::SnapshotUnavailable ==> r@ == "cannot list directory"@,
            *self == AppError::RenderFailure ==> r@ == "drawing failed"@,
            *self == AppError::InputReadFailure ==> r@ == "reading input failed"@,
    {
        match self {
            AppError::TerminalUnavailable => String::from_str("terminal unavailable"),
            AppError::SnapshotUnavailable => String::from_str("cannot list directory"),
            AppError::RenderFailure => String::from_str("drawing failed"),
            AppError::InputReadFailure => String::from_str("reading input failed"),
        }
    }
}

/// What a device reports when one of its operations fails. The text is for
/// the operator; the core decides on success or failure alone.
#[derive(Debug)]
pub struct DeviceError {
    pub message: String,
}

/// The terminal device the core drives. Implementations perform the real
/// mode switches, drawing and blocking reads; the core promises nothing
/// about their outcomes and decides only what follows from each.
pub trait TerminalDevice {
    /// Switches key input to raw (immediate, unprocessed) delivery.
    fn enable_raw_mode(&mut self) -> Result<(), DeviceError>;

    /// Switches the display to the alternate screen buffer.
    fn enter_alternate_screen(&mut self) -> Result<(), DeviceError>;

    /// Enables mouse-event reporting.
    fn enable_mouse_capture(&mut self) -> Result<(), DeviceError>;

    /// Disables mouse-event reporting.
    fn disable_mouse_capture(&mut self) -> Result<(), DeviceError>;

    /// Restores the primary screen buffer.
    fn leave_alternate_screen(&mut self) -> Result<(), DeviceError>;

    /// Restores line-buffered input.
    fn disable_raw_mode(&mut self) -> Result<(), DeviceError>;

    /// Makes the cursor visible again.
    fn show_cursor(&mut self) -> Result<(), DeviceError>;

    /// The terminal's current full area.
    fn area(&mut self) -> Result<Rect, DeviceError>;

    /// Draws one complete frame.
    fn draw(&mut self, frame: &FrameContent) -> Result<(), DeviceError>;

    /// Blocks until the next input event arrives.
    fn read_event(&mut self) -> Result<InputEvent, DeviceError>;
}

/// The session around a device. At most one session per device is active at
/// a time; entering twice, or leaving without having entered, is ruled out
/// by contract.
pub struct TerminalSession<D: TerminalDevice> {
    device: D,
    active: bool,
}

impl<D: TerminalDevice> TerminalSession<D> {
    /// Whether the session currently holds the terminal in interactive mode.
    pub closed spec fn is_active(self) -> bool {
        self.active
    }

    /// Wraps a device; the terminal is still in its ordinary mode.
    pub fn new(device: D) -> (s: TerminalSession<D>)
        ensures
            !s.is_active(),
    {
        TerminalSession { device, active: false }
    }

    /// Gives the device back, for callers that inspect it after use.
    pub fn into_device(self) -> (d: D) {
        self.device
    }

    /// Whether the session currently holds the terminal in interactive mode.
    pub fn active(&self) -> (b: bool)
        ensures
            b == self.is_active(),
    {
        self.active
    }

    /// Enters interactive mode: raw input, then the alternate screen, then
    /// mouse capture. On a later step's failure the earlier switches are
    /// undone, best effort, so a failed enter leaves no mode behind.
    pub fn enter(&mut self) -> (r: Result<(), AppError>)
        requires
            !old(self).is_active(),
        ensures
            r is Ok ==> final(self).is_active(),
            r is Err ==> !final(self).is_active() && r == Err::<(), AppError>(
                AppError::TerminalUnavailable,
            ),
    {
        if let Err(_) = self.device.enable_raw_mode() {
            return Err(AppError::TerminalUnavailable);
        }
        if let Err(_) = self.device.enter_alternate_screen() {
            let _ = self.device.disable_raw_mode();
            return Err(AppError::TerminalUnavailable);
        }
        if let Err(_) = self.device.enable_mouse_capture() {
            let _ = self.device.leave_alternate_screen();
            let _ = self.device.disable_raw_mode();
            return Err(AppError::TerminalUnavailable);
        }
        self.active = true;
        Ok(())
    }

    /// Leaves interactive mode, reversing the three switches in the
    /// opposite order and making the cursor visible. Every restoration is
    /// attempted even when an earlier one fails; a failure is reported
    /// after all four ran. The session is inactive afterwards either way.
    pub fn exit(&mut self) -> (r: Result<(), AppError>)
        requires
            old(self).is_active(),
        ensures
            !final(self).is_active(),
            r is Err ==> r == Err::<(), AppError>(AppError::TerminalUnavailable),
    {
        let mut failed: bool = false;
        if let Err(_) = self.device.disable_mouse_capture() {
            failed = true;
        }
        if let Err(_) = self.device.leave_alternate_screen() {
            failed = true;
        }
        if let Err(_) = self.device.disable_raw_mode() {
            failed = true;
        }
        if let Err(_) = self.device.show_cursor() {
            failed = true;
        }
        self.active = false;
        if failed {
            Err(AppError::TerminalUnavailable)
        } else {
            Ok(())
        }
    }

    /// The terminal's current area, cut to the cell grid. A device failure
    /// here aborts the frame as a render failure.
    pub fn screen_area(&mut self) -> (r: Result<Rect, AppError>)
        requires
            old(self).is_active(),
        ensures
            final(self).is_active(),
            r is Ok ==> r->Ok_0.wf(),
            r is Err ==> r == Err::<Rect, AppError>(AppError::RenderFailure),
    {
        match self.device.area() {
            Ok(a) => Ok(clamp_to_grid(a)),
            Err(_) => Err(AppError::RenderFailure),
        }
    }

    /// Draws one frame on the device.
    pub fn draw(&mut self, frame: &FrameContent) -> (r: Result<(), AppError>)
        requires
            old(self).is_active(),
        ensures
            final(self).is_active(),
            r is Err ==> r == Err::<(), AppError>(AppError::RenderFailure),
    {
        match self.device.draw(frame) {
            Ok(u) => Ok(u),
            Err(_) => Err(AppError::RenderFailure),
        }
    }

    /// Blocks until the device reports the next input event.
    pub fn next_event(&mut self) -> (r: Result<InputEvent, AppError>)
        requires
            old(self).is_active(),
        ensures
            final(self).is_active(),
            r is Err ==> r == Err::<InputEvent, AppError>(AppError::InputReadFailure),
    {
        match self.device.read_event() {
            Ok(e) => Ok(e),
            Err(_) => Err(AppError::InputReadFailure),
        }
    }
}

} // verus!
