//! The board model: the canvas singleton, its scoped-acquisition guard,
//! and the emergency rendering path.
//!
//! Hardware effects are recorded as a command log (`events`): a refresh
//! command carries the full canvas state the panel must be given, an LED
//! command carries the LED action, and the interrupt commands bracket the
//! emergency critical section. The unverified runtime drains the log and
//! performs each command against the real hardware; the contracts here
//! pin down exactly which commands each operation emits.

use vstd::prelude::*;

use crate::canvas::{Canvas, CanvasPixel, COLOR_OFF};
use crate::canvas::same_display_attrs;
use crate::interface::UsbEndpointAllocator;
use crate::singleton::{BorrowState, SingletonResource};
use crate::types::{FatalError, LedAction, ShutdownError};

verus! {

/// The full canvas state a refresh command hands to the panel.
pub struct CanvasSnapshot {
    pub buffer: Vec<u8>,
    pub height: u16,
    pub width: u16,
    pub constant_power: bool,
    pub buffer_dirty: bool,
    pub brightness: u8,
    pub brightness_dirty: bool,
    pub powered: bool,
    pub powered_dirty: bool,
}

/// The snapshot carries exactly the state of `c`.
pub open spec fn snapshot_matches(s: CanvasSnapshot, c: Canvas) -> bool {
    &&& s.buffer@ == c.buffer@
    &&& s.height == c.height
    &&& s.width == c.width
    &&& s.constant_power == c.constant_power
    &&& s.buffer_dirty == c.buffer_dirty
    &&& s.brightness == c.brightness
    &&& s.brightness_dirty == c.brightness_dirty
    &&& s.powered == c.powered
    &&& s.powered_dirty == c.powered_dirty
}

/// One hardware command recorded by the board model.
pub enum BoardEvent {
    /// Push the carried canvas state to the display panel.
    Refresh(CanvasSnapshot),
    /// Drive a status LED.
    Led(LedAction),
    /// Mask interrupts (start of the emergency critical section).
    DisableInterrupts,
    /// Unmask interrupts (end of the emergency critical section).
    EnableInterrupts,
}

/// `e` is a refresh command carrying exactly the state of `c`.
pub open spec fn is_refresh_of(e: BoardEvent, c: Canvas) -> bool {
    e matches BoardEvent::Refresh(s) && snapshot_matches(s, c)
}

/// How many refresh commands the log holds.
pub open spec fn refresh_count(events: Seq<BoardEvent>) -> int
    decreases events.len(),
{
    if events.len() == 0 {
        0
    } else {
        refresh_count(events.drop_last()) + if events.last() is Refresh {
            1int
        } else {
            0int
        }
    }
}

/// `post` is `pre` with exactly `added` commands appended.
pub open spec fn events_extended(pre: Seq<BoardEvent>, post: Seq<BoardEvent>, added: int) -> bool {
    &&& post.len() == pre.len() + added
    &&& forall|i: int| 0 <= i < pre.len() ==> post[i] == pre[i]
}

/// Scoped exclusive borrow of the canvas singleton. Only the board hands
/// these out; releasing one back triggers exactly one refresh command.
pub struct CanvasMutexGuard {
    owned: (),
}

/// The board: the two hardware singletons — the display canvas and the
/// USB endpoint allocator — and the hardware command log.
pub struct KeepKeyBoard {
    pub canvas_slot: SingletonResource<Canvas>,
    pub usb_slot: SingletonResource<UsbEndpointAllocator>,
    pub events: Vec<BoardEvent>,
}

impl KeepKeyBoard {
    /// An installed canvas always covers its pixel region.
    pub open spec fn wf(&self) -> bool {
        self.canvas_slot.value matches Some(c) ==> c.wf()
    }

    /// The display canvas has been born.
    pub open spec fn is_initialized(&self) -> bool {
        self.canvas_slot.is_initialized()
    }

    /// The installed canvas.
    pub open spec fn canvas(&self) -> Canvas {
        self.canvas_slot.value->0
    }

    /// Position of the exclusive borrow of the canvas.
    pub open spec fn borrow_state(&self) -> BorrowState {
        self.canvas_slot.state
    }

    /// A board with no canvas yet and an empty command log.
    pub fn new() -> (r: KeepKeyBoard)
        ensures
            r.wf(),
            !r.is_initialized(),
            r.borrow_state() == BorrowState::Free,
            !r.usb_slot.is_initialized(),
            r.usb_slot.state == BorrowState::Free,
            r.events@ == Seq::<BoardEvent>::empty(),
    {
        KeepKeyBoard {
            canvas_slot: SingletonResource::new(),
            usb_slot: SingletonResource::new(),
            events: Vec::new(),
        }
    }

    /// Births the canvas from the hardware-provided dimensions and
    /// buffer; on every later call nothing changes and the arguments are
    /// discarded.
    pub fn display_canvas_init(&mut self, height: usize, width: usize, buffer: Vec<u8>)
        requires
            old(self).wf(),
            height <= u16::MAX,
            width <= u16::MAX,
            buffer@.len() >= height * width,
        ensures
            final(self).wf(),
            final(self).is_initialized(),
            final(self).events == old(self).events,
            final(self).usb_slot == old(self).usb_slot,
            final(self).borrow_state() == old(self).borrow_state(),
            old(self).is_initialized() ==> *final(self) == *old(self),
            !old(self).is_initialized() ==> Canvas::canvas_new_post(
                final(self).canvas(),
                height as int,
                width as int,
                buffer@,
            ),
    {
        if self.canvas_slot.value.is_none() {
            let canvas = Canvas::new(height, width, buffer);
            self.canvas_slot.value = Some(canvas);
        }
    }

    /// Obtains the scoped exclusive borrow of the canvas. Contention is
    /// fatal, never a wait: a borrow held across an interrupt boundary is
    /// a design defect.
    pub fn display_canvas(&mut self) -> (r: Result<CanvasMutexGuard, FatalError>)
        requires
            old(self).is_initialized(),
        ensures
            final(self).canvas_slot.value == old(self).canvas_slot.value,
            final(self).events == old(self).events,
            final(self).usb_slot == old(self).usb_slot,
            old(self).canvas_slot.is_free() ==> r is Ok && final(self).borrow_state()
                == BorrowState::Borrowed,
            !old(self).canvas_slot.is_free() ==> r == Err::<CanvasMutexGuard, FatalError>(
                FatalError::ResourceBusy,
            ) && *final(self) == *old(self),
    {
        match self.canvas_slot.try_acquire() {
            Ok(()) => Ok(CanvasMutexGuard { owned: () }),
            Err(e) => Err(e),
        }
    }

    /// Force-releases any outstanding borrow and takes a permanent one.
    /// Only the emergency rendering path may use this.
    pub fn display_canvas_leak(&mut self) -> (r: CanvasMutexGuard)
        requires
            old(self).is_initialized(),
        ensures
            final(self).canvas_slot.value == old(self).canvas_slot.value,
            final(self).events == old(self).events,
            final(self).usb_slot == old(self).usb_slot,
            final(self).borrow_state() == BorrowState::Leaked,
    {
        self.canvas_slot.force_steal();
        CanvasMutexGuard { owned: () }
    }

    /// Exclusive access to the canvas for drawing while a guard (scoped
    /// or leaked) is held.
    pub fn canvas_mut(&mut self, _guard: &CanvasMutexGuard) -> (c: &mut Canvas)
        requires
            old(self).is_initialized(),
            old(self).borrow_state() != BorrowState::Free,
        ensures
            *c == old(self).canvas(),
            final(self).canvas_slot.value == Some(*final(c)),
            final(self).canvas_slot.state == old(self).canvas_slot.state,
            final(self).events == old(self).events,
            final(self).usb_slot == old(self).usb_slot,
    {
        self.canvas_slot.borrow_mut()
    }

    /// Records a command to push the full current canvas state to the
    /// panel.
    pub fn display_refresh(&mut self)
        requires
            old(self).is_initialized(),
        ensures
            final(self).canvas_slot == old(self).canvas_slot,
            final(self).usb_slot == old(self).usb_slot,
            events_extended(old(self).events@, final(self).events@, 1),
            is_refresh_of(final(self).events@.last(), old(self).canvas()),
    {
        let s = self.snapshot_canvas();
        self.events.push(BoardEvent::Refresh(s));
    }

    /// Records a command to drive a status LED.
    pub fn set_led(&mut self, act: LedAction)
        ensures
            final(self).canvas_slot == old(self).canvas_slot,
            final(self).usb_slot == old(self).usb_slot,
            final(self).events@ == old(self).events@.push(BoardEvent::Led(act)),
    {
        self.events.push(BoardEvent::Led(act));
    }

    /// Releases the scoped borrow. On this and every other release path
    /// the hardware is told to refresh from the exact canvas state the
    /// guard drew, exactly once, and the status indicator is toggled.
    pub fn display_canvas_release(&mut self, guard: CanvasMutexGuard)
        requires
            old(self).is_initialized(),
            old(self).borrow_state() == BorrowState::Borrowed,
        ensures
            final(self).canvas_slot.value == old(self).canvas_slot.value,
            final(self).usb_slot == old(self).usb_slot,
            final(self).borrow_state() == BorrowState::Free,
            events_extended(old(self).events@, final(self).events@, 2),
            is_refresh_of(final(self).events@[old(self).events@.len() as int], old(self).canvas()),
            final(self).events@.last() == BoardEvent::Led(LedAction::TglRedLed),
    {
        let CanvasMutexGuard { owned: () } = guard;
        self.display_refresh();
        self.set_led(LedAction::TglRedLed);
        self.canvas_slot.release();
    }

    /// The emergency rendering path, used only by the fatal-shutdown
    /// code. Inside an interrupt-masked critical section it force-takes
    /// the canvas whatever borrow may be outstanding, clears it, draws
    /// the pre-rasterized diagnostic message, and pushes the result to
    /// the panel by hand, since no scoped guard exists to do it. The
    /// canvas stays permanently borrowed; the process is terminating.
    pub fn layout_shutdown_message(&mut self, pixels: &Vec<CanvasPixel>)
        requires
            old(self).wf(),
            old(self).is_initialized(),
        ensures
            final(self).wf(),
            final(self).is_initialized(),
            final(self).usb_slot == old(self).usb_slot,
            final(self).borrow_state() == BorrowState::Leaked,
            same_display_attrs(final(self).canvas(), old(self).canvas()),
            final(self).canvas().buffer_dirty == true,
            final(self).canvas().buffer@ == old(self).canvas().draw_seq(
                old(self).canvas().cleared_buf(old(self).canvas().buffer@, COLOR_OFF),
                pixels@,
            ),
            events_extended(old(self).events@, final(self).events@, 3),
            final(self).events@[old(self).events@.len() as int] == BoardEvent::DisableInterrupts,
            is_refresh_of(
                final(self).events@[old(self).events@.len() as int + 1],
                final(self).canvas(),
            ),
            final(self).events@.last() == BoardEvent::EnableInterrupts,
    {
        self.events.push(BoardEvent::DisableInterrupts);
        let guard = self.display_canvas_leak();
        let ghost c0: Canvas = self.canvas();
        let c = self.canvas_mut(&guard);
        c.clear(COLOR_OFF);
        let ghost c1: Canvas = *c;
        c.draw_iter(pixels);
        proof {
            crate::canvas::lemma_draw_seq_config(c1, c0, c1.buffer@, pixels@);
        }
        self.display_refresh();
        self.events.push(BoardEvent::EnableInterrupts);
    }

    /// The shutdown hook: for a clean shutdown it only clears the status
    /// LEDs; for a real fault it renders the pre-rasterized diagnostic
    /// message through the emergency path. A Rust panic is routed through
    /// the panic handler instead and is not a valid input here.
    pub fn rust_shutdown_hook(&mut self, error: ShutdownError, pixels: &Vec<CanvasPixel>)
        requires
            old(self).wf(),
            old(self).is_initialized(),
            error != ShutdownError::RustPanic,
        ensures
            final(self).wf(),
            final(self).usb_slot == old(self).usb_slot,
            error == ShutdownError::NoError ==> final(self).canvas_slot == old(self).canvas_slot
                && final(self).events@ == old(self).events@.push(
                BoardEvent::Led(LedAction::ClrRedLed),
            ).push(BoardEvent::Led(LedAction::ClrGreenLed)),
            error != ShutdownError::NoError ==> {
                &&& final(self).borrow_state() == BorrowState::Leaked
                &&& final(self).canvas().buffer@ == old(self).canvas().draw_seq(
                    old(self).canvas().cleared_buf(old(self).canvas().buffer@, COLOR_OFF),
                    pixels@,
                )
                &&& events_extended(old(self).events@, final(self).events@, 3)
                &&& is_refresh_of(
                    final(self).events@[old(self).events@.len() as int + 1],
                    final(self).canvas(),
                )
            },
    {
        if error == ShutdownError::NoError {
            self.set_led(LedAction::ClrRedLed);
            self.set_led(LedAction::ClrGreenLed);
        } else {
            self.layout_shutdown_message(pixels);
        }
    }

    /// Births the USB endpoint allocator on first access and takes the
    /// exclusive borrow of it. As with the canvas, contention is fatal,
    /// never a wait.
    pub fn usb(&mut self) -> (r: Result<(), FatalError>)
        ensures
            final(self).canvas_slot == old(self).canvas_slot,
            final(self).events == old(self).events,
            final(self).usb_slot.is_initialized(),
            final(self).usb_slot.value == if old(self).usb_slot.is_initialized() {
                old(self).usb_slot.value
            } else {
                Some(
                    UsbEndpointAllocator {
                        next_interface: 0u8,
                        next_string: 1u8,
                        next_in: 1u8,
                        next_out: 1u8,
                    },
                )
            },
            old(self).usb_slot.is_free() ==> r is Ok && final(self).usb_slot.state
                == BorrowState::Borrowed,
            !old(self).usb_slot.is_free() ==> r == Err::<(), FatalError>(FatalError::ResourceBusy)
                && final(self).usb_slot.state == old(self).usb_slot.state,
    {
        let _ = self.usb_slot.call_once(UsbEndpointAllocator::new);
        self.usb_slot.try_acquire()
    }

    /// Exclusive access to the endpoint allocator while its borrow is
    /// held.
    pub fn usb_allocator_mut(&mut self) -> (a: &mut UsbEndpointAllocator)
        requires
            old(self).usb_slot.is_initialized(),
            old(self).usb_slot.state != BorrowState::Free,
        ensures
            *a == old(self).usb_slot.value->0,
            final(self).usb_slot.value == Some(*final(a)),
            final(self).usb_slot.state == old(self).usb_slot.state,
            final(self).canvas_slot == old(self).canvas_slot,
            final(self).events == old(self).events,
    {
        self.usb_slot.borrow_mut()
    }

    /// Copies the full current canvas state into a refresh snapshot.
    fn snapshot_canvas(&self) -> (s: CanvasSnapshot)
        requires
            self.is_initialized(),
        ensures
            snapshot_matches(s, self.canvas()),
    {
        let c = self.canvas_slot.borrow();
        CanvasSnapshot {
            buffer: copy_bytes(&c.buffer),
            height: c.height,
            width: c.width,
            constant_power: c.constant_power,
            buffer_dirty: c.buffer_dirty,
            brightness: c.brightness,
            brightness_dirty: c.brightness_dirty,
            powered: c.powered,
            powered_dirty: c.powered_dirty,
        }
    }
}

/// Byte-for-byte copy of a buffer.
fn copy_bytes(src: &Vec<u8>) -> (r: Vec<u8>)
    ensures
        r@ == src@,
{
    let mut out: Vec<u8> = Vec::new();
    let mut i: usize = 0;
    while i < src.len()
        invariant
            i <= src@.len(),
            out@ == src@.take(i as int),
        decreases src@.len() - i,
    {
        let b = src[i];
        out.push(b);
        proof {
            assert(src@.take(i as int + 1) =~= src@.take(i as int).push(src@[i as int]));
        }
        i += 1;
    }
    proof {
        assert(src@.take(src@.len() as int) =~= src@);
    }
    out
}

/// One refresh command was appended (followed by one non-refresh
/// command): the log's refresh count grows by exactly one.
pub proof fn lemma_refresh_count_after_release(
    pre: Seq<BoardEvent>,
    post: Seq<BoardEvent>,
    c: Canvas,
)
    requires
        events_extended(pre, post, 2),
        is_refresh_of(post[pre.len() as int], c),
        !(post.last() is Refresh),
    ensures
        refresh_count(post) == refresh_count(pre) + 1,
{
    let n = pre.len() as int;
    let e0 = post[n];
    let e1 = post[n + 1];
    assert(post =~= pre.push(e0).push(e1));
    lemma_refresh_count_snoc(pre.push(e0), e1);
    lemma_refresh_count_snoc(pre, e0);
    assert(post.last() == e1);
}

/// Appending one command adds one to the refresh count exactly when the
/// command is a refresh.
pub proof fn lemma_refresh_count_snoc(s: Seq<BoardEvent>, e: BoardEvent)
    ensures
        refresh_count(s.push(e)) == refresh_count(s) + if e is Refresh {
            1int
        } else {
            0int
        },
{
    assert(s.push(e).drop_last() =~= s);
    assert(s.push(e).last() == e);
}

/// Acquiring the display guard once, drawing arbitrarily, and releasing
/// it once emits exactly one refresh command, and that command carries
/// the exact canvas state the guard drew.
pub proof fn lemma_guard_refreshes_exactly_once(
    b0: KeepKeyBoard,
    b1: KeepKeyBoard,
    b2: KeepKeyBoard,
    b3: KeepKeyBoard,
)
    requires
        // the acquisition: no commands are emitted
        b1.events@ == b0.events@,
        // drawing under the guard: commands stay untouched
        b2.events@ == b1.events@,
        b2.is_initialized(),
        // the release: what display_canvas_release ensures
        events_extended(b2.events@, b3.events@, 2),
        is_refresh_of(b3.events@[b2.events@.len() as int], b2.canvas()),
        b3.events@.last() == BoardEvent::Led(LedAction::TglRedLed),
    ensures
        refresh_count(b3.events@) == refresh_count(b0.events@) + 1,
        is_refresh_of(b3.events@[b0.events@.len() as int], b2.canvas()),
{
    lemma_refresh_count_after_release(b2.events@, b3.events@, b2.canvas());
}

/// The emergency rendering path wins unconditionally: even while a
/// normal display borrow is outstanding it still clears, draws the
/// diagnostic message, and emits exactly one refresh command carrying
/// the drawn state, leaving the canvas permanently taken.
pub proof fn lemma_emergency_wins_over_outstanding_borrow(
    pre: KeepKeyBoard,
    post: KeepKeyBoard,
    pixels: Seq<CanvasPixel>,
)
    requires
        pre.is_initialized(),
        // the outstanding normal borrow the fault interrupted
        pre.borrow_state() == BorrowState::Borrowed,
        // what layout_shutdown_message ensures of every call
        post.borrow_state() == BorrowState::Leaked,
        post.canvas().buffer@ == pre.canvas().draw_seq(
            pre.canvas().cleared_buf(pre.canvas().buffer@, COLOR_OFF),
            pixels,
        ),
        events_extended(pre.events@, post.events@, 3),
        post.events@[pre.events@.len() as int] == BoardEvent::DisableInterrupts,
        is_refresh_of(post.events@[pre.events@.len() as int + 1], post.canvas()),
        post.events@.last() == BoardEvent::EnableInterrupts,
    ensures
        refresh_count(post.events@) == refresh_count(pre.events@) + 1,
        is_refresh_of(post.events@[pre.events@.len() as int + 1], post.canvas()),
        post.borrow_state() == BorrowState::Leaked,
{
    let n = pre.events@.len() as int;
    let e0 = post.events@[n];
    let e1 = post.events@[n + 1];
    let e2 = post.events@[n + 2];
    assert(post.events@ =~= pre.events@.push(e0).push(e1).push(e2));
    lemma_refresh_count_snoc(pre.events@.push(e0).push(e1), e2);
    lemma_refresh_count_snoc(pre.events@.push(e0), e1);
    lemma_refresh_count_snoc(pre.events@, e0);
    assert(post.events@.last() == e2);
}

} // verus!
