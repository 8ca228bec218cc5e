//! The bridge between the USB serial port and the SoC's UART.
//!
//! Towards USB, a DMA channel fills a circular buffer of `IN_BUFFER_SIZE`
//! bytes from the UART, and three events say how far it has come: half of the
//! buffer is full, all of it is full, or the line has gone idle. At each the
//! bridge says which part of the buffer goes to USB.
//!
//! Towards the UART, bytes from USB wait in the transmit queue. The bridge
//! says when to start a DMA transfer from the head of the queue, or to write a
//! single byte, and releases from the queue what the UART has been given.
//!
//! The bridge touches no peripheral. The caller reads the flags, hands them
//! in, and does what the answer says.

use vstd::prelude::*;
use crate::queue::{queue_bytes, queue_region, queue_room, TxQueue, TX_QUEUE_SIZE};

verus! {

/// Speed of the UART in bits per second.
pub const UART_BAUD: u32 = 115200;

/// Size of the circular receive buffer.
pub const IN_BUFFER_SIZE: usize = 128;

/// Half of the receive buffer.
pub const HALF_IN_BUFFER_SIZE: usize = 64;

/// The most that is taken from USB at once.
pub const USB_GRANT_SIZE: usize = 128;

/// A part of the receive buffer that goes to USB: the bytes from `start` up
/// to, not including, `end`. It is offered to the host once; what the host
/// does not take is lost.
#[derive(Clone, Copy, Debug, PartialEq, Eq, Structural)]
pub struct RxDrain {
    pub start: usize,
    pub end: usize,
}

/// What to do with the transmitter.
#[derive(Clone, Copy, Debug, PartialEq, Eq, Structural)]
pub enum TxAction {
    /// Nothing.
    Idle,
    /// Start a DMA transfer of the first `len` bytes at the head of the
    /// queue.
    StartDma { len: usize },
    /// Enable the transmission-complete interrupt and write this one byte to
    /// the UART's data register; if the UART takes it, call `byte_written`.
    WriteByte { byte: u8 },
}

/// The flags of the two DMA channels.
#[derive(Clone, Copy, Debug, PartialEq, Eq, Structural)]
pub struct DmaFlags {
    /// The receive channel has filled the whole buffer.
    pub rx_complete: bool,
    /// The receive channel has filled the first half of the buffer.
    pub rx_half_complete: bool,
    /// The transmit channel is enabled.
    pub tx_enabled: bool,
    /// The transmit channel has finished its transfer.
    pub tx_complete: bool,
}

/// What to do after a DMA interrupt.
#[derive(Clone, Copy, Debug, PartialEq, Eq, Structural)]
pub struct DmaActions {
    /// The part of the receive buffer to send to USB, if any.
    pub drain: Option<RxDrain>,
    /// The transmit transfer is over: stop the channel and clear its flag.
    pub tx_finished: bool,
    /// What to start next on the transmit side, once the channel is stopped.
    pub tx: TxAction,
}

/// The flags of the UART.
#[derive(Clone, Copy, Debug, PartialEq, Eq, Structural)]
pub struct LpuartFlags {
    /// The receive line has gone idle.
    pub rx_idle: bool,
    /// Transfers that the receive channel has left before it wraps.
    pub transfers_left: u16,
    /// The last byte written has left the UART.
    pub tx_complete: bool,
    /// The transmit channel is enabled.
    pub tx_dma_enabled: bool,
}

/// What to do after a UART interrupt.
#[derive(Clone, Copy, Debug, PartialEq, Eq, Structural)]
pub struct LpuartActions {
    /// The part of the receive buffer to send to USB, if any.
    pub drain: Option<RxDrain>,
    /// What to start on the transmit side.
    pub tx: TxAction,
}

/// An event on the receive side.
pub enum RxEvent {
    /// The DMA channel has reached the middle of the buffer.
    Half,
    /// The DMA channel has reached the end of the buffer and wraps.
    Full,
    /// The line has gone idle with the channel this far from wrapping.
    Idle { transfers_left: u16 },
}

impl RxEvent {
    /// How far into the buffer the DMA channel has written when the event
    /// comes.
    pub open spec fn position(self) -> int {
        match self {
            RxEvent::Half => HALF_IN_BUFFER_SIZE as int,
            RxEvent::Full => IN_BUFFER_SIZE as int,
            RxEvent::Idle { transfers_left } => IN_BUFFER_SIZE - transfers_left,
        }
    }

    /// Where the next drain starts after the event: where this one ended, or
    /// at the start of the buffer when the channel wraps.
    pub open spec fn next_flush(self) -> int {
        match self {
            RxEvent::Full => 0,
            _ => self.position(),
        }
    }
}

/// The receive event that a DMA interrupt stands for. A full buffer goes
/// before a half-full one.
pub open spec fn rx_dma_event(flags: DmaFlags) -> Option<RxEvent> {
    if flags.rx_complete {
        Some(RxEvent::Full)
    } else if flags.rx_half_complete {
        Some(RxEvent::Half)
    } else {
        None
    }
}

/// The receive event that a UART interrupt stands for.
pub open spec fn rx_idle_event(flags: LpuartFlags) -> Option<RxEvent> {
    if flags.rx_idle {
        Some(RxEvent::Idle { transfers_left: flags.transfers_left })
    } else {
        None
    }
}

/// What goes to USB at an event, with the last drain ended at `last_flush`:
/// all that the channel has written since.
pub open spec fn rx_drain(last_flush: usize, event: Option<RxEvent>) -> Option<RxDrain> {
    match event {
        Some(e) => Some(RxDrain { start: last_flush, end: e.position() as usize }),
        None => None,
    }
}

/// Where the next drain starts after an event.
pub open spec fn rx_next_flush(last_flush: usize, event: Option<RxEvent>) -> usize {
    match event {
        Some(e) => e.next_flush() as usize,
        None => last_flush,
    }
}

/// What the transmitter is to do when asked to start, with `region` bytes in
/// one piece at the head of the queue, the first of them `first`. Nothing
/// starts while a DMA transfer runs. A piece of two bytes or more goes by
/// DMA; a single byte is written by hand, since a DMA transfer of one byte
/// sends it twice.
pub open spec fn tx_start(region: nat, first: u8, dma_enabled: bool) -> TxAction {
    if dma_enabled || region == 0 {
        TxAction::Idle
    } else if region == 1 {
        TxAction::WriteByte { byte: first }
    } else {
        TxAction::StartDma { len: region as usize }
    }
}

/// The most that is taken from USB at once when the queue has room for
/// `room` bytes in one piece.
pub open spec fn usb_limit(room: nat) -> nat {
    if room < USB_GRANT_SIZE {
        room
    } else {
        USB_GRANT_SIZE as nat
    }
}

/// What the bridge knows.
pub struct UartStateView {
    /// Where in the receive buffer the last drain ended.
    pub last_flush: usize,
    /// Length of the piece that the last DMA transfer was started with.
    pub tx_cur_read_len: usize,
    /// The bytes waiting in the transmit queue, oldest first.
    pub tx_bytes: Seq<u8>,
    /// How many of them lie in one piece at the head of the queue.
    pub tx_region: nat,
}

impl UartStateView {
    /// The last drain ended inside the buffer; the piece at the head of the
    /// queue is part of the queue, and it is empty only if the queue is.
    pub open spec fn wf(self) -> bool {
        &&& self.last_flush <= IN_BUFFER_SIZE
        &&& self.tx_region <= self.tx_bytes.len()
        &&& self.tx_bytes.len() > 0 ==> self.tx_region > 0
    }

    /// `later` is `self` after `data` has joined the queue at its back. The
    /// piece at the head starts where it did and is no shorter.
    pub open spec fn pushed(self, data: Seq<u8>, later: Self) -> bool {
        &&& later.last_flush == self.last_flush
        &&& later.tx_cur_read_len == self.tx_cur_read_len
        &&& later.tx_bytes == self.tx_bytes + data
        &&& later.tx_region >= self.tx_region
        &&& later.wf()
    }

    /// `later` is `self` after `n` bytes have been released from the front of
    /// the queue, or all of the piece at the head if that is shorter.
    pub open spec fn released(self, n: nat, later: Self) -> bool {
        &&& later.last_flush == self.last_flush
        &&& later.tx_cur_read_len == self.tx_cur_read_len
        &&& later.tx_bytes == self.tx_bytes.skip(
            if n <= self.tx_region {
                n as int
            } else {
                self.tx_region as int
            },
        )
        &&& later.wf()
    }

    /// What `start_tx` answers.
    pub open spec fn start_action(self, dma_enabled: bool) -> TxAction {
        tx_start(self.tx_region, self.tx_bytes[0], dma_enabled)
    }

    /// The bridge after `start_tx`: a DMA transfer that is to start is
    /// recorded with its length, and nothing else changes.
    pub open spec fn started(self, dma_enabled: bool) -> Self {
        match self.start_action(dma_enabled) {
            TxAction::StartDma { len } => UartStateView { tx_cur_read_len: len, ..self },
            _ => self,
        }
    }
}

/// The bridge.
pub struct UartState {
    last_flush: usize,
    tx_queue: TxQueue,
    tx_cur_read_len: usize,
}

impl View for UartState {
    type V = UartStateView;

    closed spec fn view(&self) -> UartStateView {
        UartStateView {
            last_flush: self.last_flush,
            tx_cur_read_len: self.tx_cur_read_len,
            tx_bytes: queue_bytes(self.tx_queue),
            tx_region: queue_region(self.tx_queue),
        }
    }
}

impl UartState {
    #[verifier::type_invariant]
    spec fn inv(&self) -> bool {
        self@.wf()
    }

    /// How many bytes the transmit queue can take in one piece. Taking bytes
    /// from the queue may change it, and so may a look at its head.
    pub closed spec fn tx_room(&self) -> nat {
        queue_room(self.tx_queue)
    }

    /// A bridge with an empty transmit queue of its own, and nothing drained
    /// yet.
    pub fn new() -> (uart: Self)
        ensures
            uart@ == (UartStateView {
                last_flush: 0,
                tx_cur_read_len: 0,
                tx_bytes: Seq::empty(),
                tx_region: 0,
            }),
            uart.tx_room() == TX_QUEUE_SIZE,
            uart@.wf(),
    {
        UartState { last_flush: 0, tx_queue: TxQueue::new(), tx_cur_read_len: 0 }
    }

    /// Where in the receive buffer the last drain ended.
    pub fn last_flush(&self) -> (at: usize)
        ensures
            at == self@.last_flush,
            self@.wf(),
    {
        proof {
            use_type_invariant(self);
        }
        self.last_flush
    }

    /// Length of the piece that the last DMA transfer was started with.
    pub fn tx_cur_read_len(&self) -> (len: usize)
        ensures
            len == self@.tx_cur_read_len,
    {
        self.tx_cur_read_len
    }

    /// How many bytes to read from USB at most before calling
    /// `interrupt_usb`: as many as the queue takes in one piece, and no more
    /// than `USB_GRANT_SIZE`. Zero when the queue is full.
    pub fn usb_read_limit(&mut self) -> (limit: usize)
        ensures
            limit == usb_limit(old(self).tx_room()),
            final(self).tx_room() == old(self).tx_room(),
            final(self)@ == old(self)@,
    {
        proof {
            use_type_invariant(&*self);
        }
        match self.tx_queue.grant_len(USB_GRANT_SIZE) {
            Some(len) => len,
            None => 0,
        }
    }

    /// Where in memory the piece at the head of the queue starts, for the
    /// DMA channel; `None` when the queue is empty.
    pub fn tx_dma_address(&mut self) -> (address: Option<usize>)
        ensures
            address is Some <==> old(self)@.tx_region > 0,
            final(self)@ == old(self)@,
    {
        proof {
            use_type_invariant(&*self);
        }
        match self.tx_queue.region() {
            Some(run) => Some(run.address),
            None => None,
        }
    }

    /// A DMA interrupt.
    ///
    /// On the receive side a full or half-full buffer is drained from where
    /// the last drain ended; a full buffer goes first if both flags are up.
    /// On the transmit side a finished transfer is released from the queue,
    /// and the next piece is started.
    ///
    /// The half-way mark may not lie behind the end of the last drain.
    pub fn interrupt_dma(&mut self, flags: DmaFlags) -> (actions: DmaActions)
        requires
            rx_dma_event(flags) == Some(RxEvent::Half) ==> old(self)@.last_flush
                <= HALF_IN_BUFFER_SIZE,
        ensures
            actions.drain == rx_drain(old(self)@.last_flush, rx_dma_event(flags)),
            final(self)@.last_flush == rx_next_flush(old(self)@.last_flush, rx_dma_event(flags)),
            actions.tx_finished == (flags.tx_enabled && flags.tx_complete),
            !actions.tx_finished ==> actions.tx == TxAction::Idle && final(self)@ == (
            UartStateView { last_flush: final(self)@.last_flush, ..old(self)@ }),
            actions.tx_finished ==> {
                let released = UartStateView {
                    tx_cur_read_len: old(self)@.tx_cur_read_len,
                    last_flush: old(self)@.last_flush,
                    ..final(self)@
                };
                &&& old(self)@.released(old(self)@.tx_cur_read_len as nat, released)
                &&& actions.tx == released.start_action(false)
                &&& final(self)@.tx_cur_read_len == released.started(false).tx_cur_read_len
            },
            final(self)@.wf(),
    {
        proof {
            use_type_invariant(&*self);
        }
        let mut drain: Option<RxDrain> = None;
        if flags.rx_complete {
            drain = Some(RxDrain { start: self.last_flush, end: IN_BUFFER_SIZE });
            self.last_flush = 0;
        } else if flags.rx_half_complete {
            drain = Some(RxDrain { start: self.last_flush, end: HALF_IN_BUFFER_SIZE });
            self.last_flush = HALF_IN_BUFFER_SIZE;
        }
        let mut tx = TxAction::Idle;
        let tx_finished = flags.tx_enabled && flags.tx_complete;
        if tx_finished {
            self.tx_queue.release(self.tx_cur_read_len);
            tx = self.start_tx(false);
        }
        DmaActions { drain, tx_finished, tx }
    }

    /// A UART interrupt.
    ///
    /// When the receive line has gone idle, what the DMA channel has written
    /// since the last drain is drained. When the last byte written has left
    /// the UART, the next piece is started.
    ///
    /// The channel's position may not lie behind the end of the last drain.
    pub fn interrupt_lpuart(&mut self, flags: LpuartFlags) -> (actions: LpuartActions)
        requires
            flags.rx_idle ==> flags.transfers_left <= IN_BUFFER_SIZE && old(self)@.last_flush
                <= IN_BUFFER_SIZE - flags.transfers_left,
        ensures
            actions.drain == rx_drain(old(self)@.last_flush, rx_idle_event(flags)),
            final(self)@.last_flush == rx_next_flush(old(self)@.last_flush, rx_idle_event(flags)),
            actions.tx == if flags.tx_complete {
                old(self)@.start_action(flags.tx_dma_enabled)
            } else {
                TxAction::Idle
            },
            final(self)@ == (UartStateView {
                last_flush: final(self)@.last_flush,
                ..if flags.tx_complete {
                    old(self)@.started(flags.tx_dma_enabled)
                } else {
                    old(self)@
                }
            }),
            final(self)@.wf(),
    {
        proof {
            use_type_invariant(&*self);
        }
        let mut drain: Option<RxDrain> = None;
        if flags.rx_idle {
            let pos = IN_BUFFER_SIZE - flags.transfers_left as usize;
            drain = Some(RxDrain { start: self.last_flush, end: pos });
            self.last_flush = pos;
        }
        let mut tx = TxAction::Idle;
        if flags.tx_complete {
            tx = self.start_tx(flags.tx_dma_enabled);
        }
        LpuartActions { drain, tx }
    }

    /// A USB interrupt, with the bytes read from the host: at most
    /// `usb_read_limit()` of them. They join the queue at its back, and if
    /// there are any, the transmitter is started.
    pub fn interrupt_usb(&mut self, data: &[u8], tx_dma_enabled: bool) -> (action: TxAction)
        requires
            data@.len() <= usb_limit(old(self).tx_room()),
        ensures
            ({
                let queued = UartStateView {
                    tx_cur_read_len: old(self)@.tx_cur_read_len,
                    ..final(self)@
                };
                &&& old(self)@.pushed(data@, queued)
                &&& action == if data@.len() > 0 {
                    queued.start_action(tx_dma_enabled)
                } else {
                    TxAction::Idle
                }
                &&& final(self)@.tx_cur_read_len == if data@.len() > 0 {
                    queued.started(tx_dma_enabled).tx_cur_read_len
                } else {
                    queued.tx_cur_read_len
                }
            }),
            final(self)@.wf(),
    {
        proof {
            use_type_invariant(&*self);
        }
        let num_read = data.len();
        if num_read > 0 {
            self.tx_queue.push(data);
            self.start_tx(tx_dma_enabled)
        } else {
            assert(old(self)@.tx_bytes + data@ =~= old(self)@.tx_bytes);
            TxAction::Idle
        }
    }

    /// Starts the transmitter on the piece at the head of the queue, unless a
    /// DMA transfer is running or the queue is empty.
    pub fn start_tx(&mut self, tx_dma_enabled: bool) -> (action: TxAction)
        ensures
            action == old(self)@.start_action(tx_dma_enabled),
            final(self)@ == old(self)@.started(tx_dma_enabled),
            final(self)@.wf(),
    {
        proof {
            use_type_invariant(&*self);
        }
        if tx_dma_enabled {
            return TxAction::Idle;
        }
        let run = match self.tx_queue.region() {
            Some(run) => run,
            None => {
                return TxAction::Idle;
            },
        };
        if run.len > 1 {
            self.tx_cur_read_len = run.len;
            TxAction::StartDma { len: run.len }
        } else {
            TxAction::WriteByte { byte: run.first }
        }
    }

    /// The UART has taken the byte of a `WriteByte`: it is released from the
    /// queue.
    pub fn byte_written(&mut self)
        ensures
            old(self)@.released(1, final(self)@),
    {
        proof {
            use_type_invariant(&*self);
        }
        self.tx_queue.release(1);
    }
}

/// How far the receive side has come.
pub struct RxProgress {
    /// Where in the buffer the last drain ended.
    pub last_flush: int,
    /// How often the DMA channel has wrapped.
    pub wraps: int,
    /// How many bytes have gone to USB in all.
    pub forwarded: int,
}

/// The receive side after a run of events, each drained as `interrupt_dma`
/// and `interrupt_lpuart` drain it.
pub open spec fn rx_after(events: Seq<RxEvent>) -> RxProgress
    decreases events.len(),
{
    if events.len() == 0 {
        RxProgress { last_flush: 0, wraps: 0, forwarded: 0 }
    } else {
        let before = rx_after(events.drop_last());
        let event = events.last();
        RxProgress {
            last_flush: event.next_flush(),
            wraps: before.wraps + if event is Full {
                1int
            } else {
                0int
            },
            forwarded: before.forwarded + (event.position() - before.last_flush),
        }
    }
}

/// Whether every event of a run finds the DMA channel inside the buffer and
/// not behind the end of the drain before it.
pub open spec fn rx_in_step(events: Seq<RxEvent>) -> bool {
    forall|k: int|
        0 <= k < events.len() ==> rx_after(events.take(k)).last_flush <= (
        #[trigger] events[k]).position() <= IN_BUFFER_SIZE
}

/// A run that is in step stays so when it is cut short.
pub proof fn lemma_rx_in_step_prefix(events: Seq<RxEvent>, n: int)
    requires
        rx_in_step(events),
        0 <= n <= events.len(),
    ensures
        rx_in_step(events.take(n)),
{
    assert forall|k: int| 0 <= k < events.take(n).len() implies rx_after(
        events.take(n).take(k),
    ).last_flush <= (#[trigger] events.take(n)[k]).position() <= IN_BUFFER_SIZE by {
        assert(events.take(n).take(k) =~= events.take(k));
        assert(events.take(n)[k] == events[k]);
    }
}

/// Receive coverage. Take any run of half, full and idle events that is in
/// step. Count the bytes of the stream from the UART from 0; the DMA channel
/// puts byte `i` into cell `i % 128` of the buffer. Then after the first `n`
/// events the drains have sent to USB exactly the bytes that the channel had
/// written when the last of them came: as many as lie in the buffers it has
/// filled and wrapped from, and in the current buffer up to the end of the
/// last drain. So the drain of event `n` starts at the byte after the last one
/// sent: between two drains nothing is left out and nothing is sent twice.
pub proof fn lemma_rx_coverage(events: Seq<RxEvent>, n: int)
    requires
        rx_in_step(events),
        0 <= n <= events.len(),
    ensures
        0 <= rx_after(events.take(n)).last_flush <= IN_BUFFER_SIZE,
        0 <= rx_after(events.take(n)).wraps,
        rx_after(events.take(n)).forwarded == IN_BUFFER_SIZE * rx_after(events.take(n)).wraps
            + rx_after(events.take(n)).last_flush,
    decreases n,
{
    if n > 0 {
        lemma_rx_coverage(events, n - 1);
        assert(events.take(n).drop_last() =~= events.take(n - 1));
        assert(events.take(n).last() == events[n - 1]);
    }
}

/// The transmit side together with the DMA channel it drives, and a record
/// of the bytes that went in and out.
pub struct TxLine {
    /// The bridge.
    pub uart: UartStateView,
    /// Whether the DMA channel is running a transfer.
    pub busy: bool,
    /// All bytes that came from USB, in order.
    pub pushed: Seq<u8>,
    /// All bytes that were given to the UART, in order.
    pub sent: Seq<u8>,
}

impl TxLine {
    /// A line on which nothing has happened.
    pub open spec fn is_initial(self) -> bool {
        &&& self.uart.wf()
        &&& self.uart.tx_bytes.len() == 0
        &&& !self.busy
        &&& self.pushed.len() == 0
        &&& self.sent.len() == 0
    }

    /// Number of bytes at the head of the queue that the running DMA
    /// transfer covers.
    pub open spec fn in_flight(self) -> int {
        if self.busy {
            self.uart.tx_cur_read_len as int
        } else {
            0
        }
    }

    /// `later` is this line after `start_tx` was called and its answer
    /// carried out. The DMA channel is enabled exactly while it runs a
    /// transfer. A single byte is given to the UART, which takes it or does
    /// not; if it does, `byte_written` is called.
    pub open spec fn start(self, later: TxLine) -> bool {
        match self.uart.start_action(self.busy) {
            TxAction::Idle => later == self,
            TxAction::StartDma { len } => later == (TxLine {
                uart: self.uart.started(self.busy),
                busy: true,
                sent: self.sent + self.uart.tx_bytes.take(len as int),
                ..self
            }),
            TxAction::WriteByte { byte } => later == self || {
                &&& self.uart.released(1, later.uart)
                &&& later.busy == self.busy
                &&& later.pushed == self.pushed
                &&& later.sent == self.sent.push(byte)
            },
        }
    }

    /// `later` is this line after `interrupt_usb` was called with `data`;
    /// `queued` is the line in between, with `data` in the queue.
    pub open spec fn usb(self, data: Seq<u8>, queued: TxLine, later: TxLine) -> bool {
        &&& self.uart.pushed(data, queued.uart)
        &&& queued.busy == self.busy
        &&& queued.pushed == self.pushed + data
        &&& queued.sent == self.sent
        &&& if data.len() > 0 {
            queued.start(later)
        } else {
            later == queued
        }
    }

    /// `later` is this line after the running DMA transfer has finished and
    /// `interrupt_dma` was called for it; `released` is the line in between,
    /// with the channel stopped and the transfer released from the queue.
    pub open spec fn dma_done(self, released: TxLine, later: TxLine) -> bool {
        &&& self.busy
        &&& self.uart.released(self.uart.tx_cur_read_len as nat, released.uart)
        &&& !released.busy
        &&& released.pushed == self.pushed
        &&& released.sent == self.sent
        &&& released.start(later)
    }

    /// `later` is this line one step on: after a call of `start_tx`, be it
    /// from `interrupt_lpuart`, after bytes from USB, or after the end of a
    /// DMA transfer.
    pub open spec fn next(self, later: TxLine) -> bool {
        ||| self.start(later)
        ||| exists|data: Seq<u8>, queued: TxLine| self.usb(data, queued, later)
        ||| exists|released: TxLine| self.dma_done(released, later)
    }

    /// The bytes given to the UART, then the bytes in the queue that it has
    /// not been given, are the bytes that came from USB, in their order. A
    /// running transfer lies within the piece at the head of the queue.
    pub open spec fn in_order(self) -> bool {
        &&& self.uart.wf()
        &&& self.busy ==> self.uart.tx_cur_read_len <= self.uart.tx_region
        &&& self.sent + self.uart.tx_bytes.skip(self.in_flight()) == self.pushed
    }
}

/// Whether `lines` are the states of a transmit line from its start on, each
/// one step after the one before it.
pub open spec fn tx_history(lines: Seq<TxLine>) -> bool {
    &&& lines.len() > 0
    &&& lines[0].is_initial()
    &&& forall|i: int| 0 <= i < lines.len() - 1 ==> (#[trigger] lines[i]).next(lines[i + 1])
}

proof fn lemma_start_in_order(line: TxLine, later: TxLine)
    requires
        line.in_order(),
        line.start(later),
    ensures
        later.in_order(),
{
    let bytes = line.uart.tx_bytes;
    match line.uart.start_action(line.busy) {
        TxAction::Idle => {},
        TxAction::StartDma { len } => {
            assert(later.sent + later.uart.tx_bytes.skip(len as int) =~= line.sent + bytes);
            assert(bytes.skip(0) =~= bytes);
        },
        TxAction::WriteByte { byte } => {
            if later != line {
                assert(later.sent + later.uart.tx_bytes =~= line.sent + bytes);
                assert(bytes.skip(0) =~= bytes);
                assert(later.uart.tx_bytes.skip(0) =~= later.uart.tx_bytes);
            }
        },
    }
}

proof fn lemma_next_in_order(line: TxLine, later: TxLine)
    requires
        line.in_order(),
        line.next(later),
    ensures
        later.in_order(),
{
    if line.start(later) {
        lemma_start_in_order(line, later);
    } else if exists|data: Seq<u8>, queued: TxLine| line.usb(data, queued, later) {
        let (data, queued) = choose|data: Seq<u8>, queued: TxLine| line.usb(data, queued, later);
        assert(queued.sent + queued.uart.tx_bytes.skip(queued.in_flight()) =~= line.sent
            + line.uart.tx_bytes.skip(line.in_flight()) + data);
        if data.len() > 0 {
            lemma_start_in_order(queued, later);
        }
    } else {
        let released = choose|released: TxLine| line.dma_done(released, later);
        assert(released.uart.tx_bytes.skip(0) =~= released.uart.tx_bytes);
        lemma_start_in_order(released, later);
    }
}

/// Transmit order. At every point of the history of a transmit line, the
/// bytes that the UART has been given are the first of the bytes that came
/// from USB, in the order in which they came, each once; the rest of them
/// wait in the queue.
pub proof fn lemma_tx_fifo(lines: Seq<TxLine>, at: int)
    requires
        tx_history(lines),
        0 <= at < lines.len(),
    ensures
        lines[at].in_order(),
        lines[at].sent.len() <= lines[at].pushed.len(),
        lines[at].sent == lines[at].pushed.take(lines[at].sent.len() as int),
        lines[at].uart.tx_bytes.skip(lines[at].in_flight()) == lines[at].pushed.skip(
            lines[at].sent.len() as int,
        ),
    decreases at,
{
    if at == 0 {
        assert(lines[0].sent + lines[0].uart.tx_bytes.skip(0) =~= lines[0].pushed);
    } else {
        lemma_tx_fifo(lines, at - 1);
        assert(lines[at - 1].next(lines[at - 1 + 1]));
        lemma_next_in_order(lines[at - 1], lines[at]);
    }
    let line = lines[at];
    let rest = line.uart.tx_bytes.skip(line.in_flight());
    assert(line.sent + rest == line.pushed);
    assert(line.pushed.take(line.sent.len() as int) =~= line.sent);
    assert(line.pushed.skip(line.sent.len() as int) =~= rest);
}

} // verus!
