//! The terminal session: exclusive ownership of the device's raw-mode and
//! alternate-screen state, and the draw cycle that commits frames.
//!
//! Every interaction with the device goes through one trusted wrapper per
//! crossterm or std call, and the session keeps a ghost history of the
//! device operations it has issued. The well-formedness invariant ties
//! that history to the session's phase: while the session is attached the
//! history holds no teardown operation, and once released it holds each
//! teardown operation exactly once — however many times release was
//! called, and from whichever exit path.

use std::io::Write;

use vstd::prelude::*;

use crossterm::ExecutableCommand;
use crossterm::QueueableCommand;

use crate::cell::Pixel;
use crate::encode::{encode, payload_of_cells, StyledChar};
use crate::frame::Frame;
use crate::rows::reconstruct;

verus! {

#[verifier::external_type_specification]
#[verifier::external_body]
pub struct ExStdout(std::io::Stdout);

#[verifier::external_type_specification]
#[verifier::external_body]
pub struct ExIoError(std::io::Error);

/// Relies on std::io::stdout: a handle to the process's standard output.
#[verifier::external_body]
fn term_stdout() -> std::io::Stdout {
    std::io::stdout()
}

/// Relies on crossterm's EnterAlternateScreen command: switches the
/// device to the alternate screen buffer.
#[verifier::external_body]
fn term_enter_alt(out: &mut std::io::Stdout) -> Result<(), std::io::Error> {
    match out.execute(crossterm::terminal::EnterAlternateScreen) {
        Ok(_) => Ok(()),
        Err(e) => Err(e),
    }
}

/// Relies on crossterm's LeaveAlternateScreen command: restores the
/// device's original screen buffer. Failures are reported, never
/// panicked.
#[verifier::external_body]
fn term_leave_alt(out: &mut std::io::Stdout) -> Result<(), std::io::Error>
    opens_invariants none
    no_unwind
{
    match out.execute(crossterm::terminal::LeaveAlternateScreen) {
        Ok(_) => Ok(()),
        Err(e) => Err(e),
    }
}

/// Relies on crossterm::terminal::enable_raw_mode: disables line
/// buffering and echo on the device.
#[verifier::external_body]
fn term_enable_raw() -> Result<(), std::io::Error> {
    crossterm::terminal::enable_raw_mode()
}

/// Relies on crossterm::terminal::disable_raw_mode: restores the
/// device's canonical input mode. Failures are reported, never
/// panicked.
#[verifier::external_body]
fn term_disable_raw() -> Result<(), std::io::Error>
    opens_invariants none
    no_unwind
{
    crossterm::terminal::disable_raw_mode()
}

/// Relies on crossterm::terminal::size: the device's current dimensions
/// as (columns, rows). Nothing can be promised of the values: they
/// depend on the terminal the process is attached to.
#[verifier::external_body]
fn term_size() -> Result<(u16, u16), std::io::Error> {
    crossterm::terminal::size()
}

/// Relies on crossterm's MoveTo command, queued: positions the cursor at
/// the frame origin before the payload is written.
#[verifier::external_body]
fn term_queue_origin(out: &mut std::io::Stdout) -> Result<(), std::io::Error> {
    match out.queue(crossterm::cursor::MoveTo(0, 0)) {
        Ok(_) => Ok(()),
        Err(e) => Err(e),
    }
}

/// Relies on crossterm's PrintStyledContent command, queued: buffers one
/// stretch of text with the given ANSI palette colors; `None` leaves the
/// device's default color.
#[verifier::external_body]
fn term_queue_styled(
    out: &mut std::io::Stdout,
    text: &Vec<char>,
    fg: Option<u8>,
    bg: Option<u8>,
) -> Result<(), std::io::Error> {
    let s: String = text.iter().collect();
    let mut styled = crossterm::style::StyledContent::new(crossterm::style::ContentStyle::new(), s);
    if let Some(v) = fg {
        styled = crossterm::style::Stylize::with(styled, crossterm::style::Color::AnsiValue(v));
    }
    if let Some(v) = bg {
        styled = crossterm::style::Stylize::on(styled, crossterm::style::Color::AnsiValue(v));
    }
    match out.queue(crossterm::style::PrintStyledContent(styled)) {
        Ok(_) => Ok(()),
        Err(e) => Err(e),
    }
}

/// Relies on std::io::Write::flush on stdout: sends everything queued to
/// the device as one write.
#[verifier::external_body]
fn term_flush(out: &mut std::io::Stdout) -> Result<(), std::io::Error> {
    out.flush()
}

/// One operation the session issues to the device, as the ghost history
/// records it.
pub enum DeviceOp {
    /// Switching to the alternate screen buffer.
    EnterAlt,
    /// Engaging raw input mode.
    EnableRaw,
    /// Restoring canonical input mode.
    DisableRaw,
    /// Restoring the original screen buffer.
    LeaveAlt,
    /// One attempted frame write, carrying the styled payload handed to
    /// the device.
    Commit(Seq<StyledChar>),
}

/// How often `op` occurs in a device history.
pub open spec fn op_count(log: Seq<DeviceOp>, op: DeviceOp) -> nat
    decreases log.len(),
{
    if log.len() == 0 {
        0
    } else {
        op_count(log.drop_last(), op) + if log.last() == op {
            1nat
        } else {
            0nat
        }
    }
}

/// The terminal session. Constructing one switches the device to the
/// alternate screen and engages raw mode; releasing it (or dropping it)
/// restores both, exactly once.
pub struct Terminal {
    out: std::io::Stdout,
    active: bool,
    history: Ghost<Seq<DeviceOp>>,
}

impl Terminal {
    /// Whether the session still owns the device.
    pub closed spec fn attached(self) -> bool {
        self.active
    }

    /// Every device operation this session has issued, oldest first.
    pub closed spec fn log(self) -> Seq<DeviceOp> {
        self.history@
    }

    /// The session's lifecycle invariant: an attached session has issued
    /// no teardown operation; a released one has issued each exactly
    /// once.
    pub open spec fn wf(self) -> bool {
        if self.attached() {
            op_count(self.log(), DeviceOp::DisableRaw) == 0 && op_count(
                self.log(),
                DeviceOp::LeaveAlt,
            ) == 0
        } else {
            op_count(self.log(), DeviceOp::DisableRaw) == 1 && op_count(
                self.log(),
                DeviceOp::LeaveAlt,
            ) == 1
        }
    }
}

/// Appending one operation raises its own count by one and no other.
pub proof fn lemma_op_count_push(log: Seq<DeviceOp>, op: DeviceOp, q: DeviceOp)
    ensures
        op_count(log.push(op), q) == op_count(log, q) + if op == q {
            1nat
        } else {
            0nat
        },
{
    assert(log.push(op).drop_last() =~= log);
}

impl Terminal {
    /// Acquires the terminal: switches to the alternate screen, then
    /// engages raw mode. When either step fails nothing is left half
    /// done: a failure of raw mode undoes the screen switch (that undo's
    /// own outcome is suppressed) and the error is surfaced.
    pub fn new() -> (r: Result<Terminal, std::io::Error>)
        ensures
            match r {
                Ok(t) => t.wf() && t.attached() && t.log() == seq![
                    DeviceOp::EnterAlt,
                    DeviceOp::EnableRaw,
                ],
                Err(_) => true,
            },
    {
        let mut out = term_stdout();
        match term_enter_alt(&mut out) {
            Err(e) => {
                return Err(e);
            },
            Ok(_) => {},
        }
        match term_enable_raw() {
            Err(e) => {
                let _ = term_leave_alt(&mut out);
                return Err(e);
            },
            Ok(_) => {},
        }
        let ghost log = seq![DeviceOp::EnterAlt, DeviceOp::EnableRaw];
        let t = Terminal { out, active: true, history: Ghost(log) };
        proof {
            assert(log =~= Seq::empty().push(DeviceOp::EnterAlt).push(DeviceOp::EnableRaw));
            lemma_op_count_push(Seq::empty().push(DeviceOp::EnterAlt), DeviceOp::EnableRaw,
                DeviceOp::DisableRaw);
            lemma_op_count_push(Seq::empty(), DeviceOp::EnterAlt, DeviceOp::DisableRaw);
            lemma_op_count_push(Seq::empty().push(DeviceOp::EnterAlt), DeviceOp::EnableRaw,
                DeviceOp::LeaveAlt);
            lemma_op_count_push(Seq::empty(), DeviceOp::EnterAlt, DeviceOp::LeaveAlt);
        }
        Ok(t)
    }

    /// Releases the terminal: disengages raw mode and leaves the
    /// alternate screen, exactly once. Calling release on an already
    /// released session does nothing and reports `false`; errors during
    /// teardown are suppressed, because a teardown failure must never
    /// prevent process exit.
    pub fn release(&mut self) -> (r: bool)
        ensures
            r == old(self).attached(),
            !final(self).attached(),
            final(self).log() == if old(self).attached() {
                old(self).log() + seq![DeviceOp::DisableRaw, DeviceOp::LeaveAlt]
            } else {
                old(self).log()
            },
            old(self).wf() ==> final(self).wf(),
    {
        if !self.active {
            return false;
        }
        let _ = term_disable_raw();
        let _ = term_leave_alt(&mut self.out);
        self.active = false;
        let ghost before = self.history@;
        self.history = Ghost(before + seq![DeviceOp::DisableRaw, DeviceOp::LeaveAlt]);
        proof {
            assert(self.history@ =~= before.push(DeviceOp::DisableRaw).push(DeviceOp::LeaveAlt));
            lemma_op_count_push(before.push(DeviceOp::DisableRaw), DeviceOp::LeaveAlt,
                DeviceOp::DisableRaw);
            lemma_op_count_push(before, DeviceOp::DisableRaw, DeviceOp::DisableRaw);
            lemma_op_count_push(before.push(DeviceOp::DisableRaw), DeviceOp::LeaveAlt,
                DeviceOp::LeaveAlt);
            lemma_op_count_push(before, DeviceOp::DisableRaw, DeviceOp::LeaveAlt);
        }
        true
    }

    /// One redraw cycle: opens a frame bound to the device's current
    /// dimensions, runs the callback against it, reconstructs and
    /// encodes what the callback submitted, and hands the payload to the
    /// device as one queued-then-flushed write. Whatever the device
    /// answers, the session stays attached and the frame is discarded;
    /// when a payload was handed over at all, it is exactly the encoding
    /// of the cells the callback submitted. Drawing on a released
    /// session is a contract violation, not a recoverable error: the
    /// session must still be attached.
    #[verifier::loop_isolation(false)]
    pub fn draw<F: FnOnce(Frame) -> Frame>(&mut self, callback: F) -> (r: Result<
        (),
        std::io::Error,
    >)
        requires
            old(self).wf(),
            old(self).attached(),
            forall|f: Frame|
                f@ == Seq::<Pixel>::empty() ==> #[trigger] call_requires(callback, (f,)),
        ensures
            final(self).wf(),
            final(self).attached(),
            (exists|f0: Frame, f1: Frame|
                f0@ == Seq::<Pixel>::empty() && #[trigger] call_ensures(callback, (f0,), f1)
                    && final(self).log() == old(self).log().push(
                    DeviceOp::Commit(payload_of_cells(f1@)),
                )) || (r is Err && final(self).log() == old(self).log()),
    {
        let (w, h) = match term_size() {
            Ok(wh) => wh,
            Err(e) => {
                return Err(e);
            },
        };
        let f0 = Frame::new(w, h);
        let ghost gf0 = f0;
        let f1 = callback(f0);
        let rows = reconstruct(f1.cells());
        let runs = encode(&rows);
        let ghost op = DeviceOp::Commit(payload_of_cells(f1@));
        let ghost before = self.history@;
        self.history = Ghost(before.push(op));
        proof {
            lemma_op_count_push(before, op, DeviceOp::DisableRaw);
            lemma_op_count_push(before, op, DeviceOp::LeaveAlt);
        }
        match term_queue_origin(&mut self.out) {
            Ok(_) => {},
            Err(e) => {
                return Err(e);
            },
        }
        let mut i: usize = 0;
        while i < runs.len()
            invariant
                self.active == old(self).active,
                self.history@ == before.push(op),
            decreases runs@.len() - i,
        {
            let run = &runs[i];
            let fg = run.fg.ansi_index();
            let bg = run.bg.ansi_index();
            match term_queue_styled(&mut self.out, &run.text, fg, bg) {
                Ok(_) => {},
                Err(e) => {
                    return Err(e);
                },
            }
            i += 1;
        }
        match term_flush(&mut self.out) {
            Ok(_) => {},
            Err(e) => {
                return Err(e);
            },
        }
        Ok(())
    }
}

/// Lifecycle exactly-once: whatever path a session took to its released
/// state — normal exit, an early error return, or teardown from a drop
/// guard — its device history holds exactly one raw-mode restore and
/// exactly one alternate-screen exit.
pub proof fn lemma_teardown_exactly_once(t: Terminal)
    requires
        t.wf(),
        !t.attached(),
    ensures
        op_count(t.log(), DeviceOp::DisableRaw) == 1,
        op_count(t.log(), DeviceOp::LeaveAlt) == 1,
{
}

impl Drop for Terminal {
    /// Releasing on scope exit keeps the teardown guarantee on panic
    /// unwinds and early returns alike.
    fn drop(&mut self)
        opens_invariants none
        no_unwind
    {
        if self.active {
            let _ = term_disable_raw();
            let _ = term_leave_alt(&mut self.out);
            self.active = false;
            self.history = Ghost(
                self.history@ + seq![DeviceOp::DisableRaw, DeviceOp::LeaveAlt],
            );
        }
    }
}

} // verus!
