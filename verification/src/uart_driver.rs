//! Queued, interrupt-driven UART driver.
//!
//! A `UartContext` bundles the peripheral handle with two fixed-capacity
//! byte queues and the transmit-arming flag. Foreground code enqueues
//! outbound bytes with [`write_byte`] or [`write`]; the combined
//! receive/transmit interrupt service routine [`interrupt`] echoes received
//! bytes back to the sender, records them in the receive history, and
//! drains the transmit queue, arming and disarming the transmit-empty
//! interrupt edge-triggered so an empty queue never causes an interrupt
//! storm.
//!
//! The peripheral itself is modeled by [`UartPeripheral`]: the byte-level
//! register interface the driver needs (status flags, one-byte reads and
//! writes, transmit-interrupt control), with the bytes written to the data
//! register recorded in order. Clocking, pin mapping and baud-rate setup
//! stay outside; platform glue mirrors the real device into this model and
//! carries its effects back out.

use vstd::prelude::*;

use crate::queue::{
    enqueue_drop_newest, enqueue_drop_oldest, ByteQueue, QUEUE_CAPACITY,
};

verus! {

/// The carriage-return byte (`'\r'`) that triggers the prompt echo.
pub const BYTE_CR: u8 = 13;

/// The line-feed byte (`'\n'`), first byte of the echoed prompt.
pub const BYTE_LF: u8 = 10;

/// The dollar-sign byte (`'$'`), second byte of the echoed prompt.
pub const BYTE_DOLLAR: u8 = 36;

/// The greater-than byte (`'>'`), third byte of the echoed prompt.
pub const BYTE_GT: u8 = 62;

/// The space byte (`' '`), last byte of the echoed prompt.
pub const BYTE_SPACE: u8 = 32;

/// Error of the non-blocking peripheral operations: the register is not
/// ready, nothing was transferred.
#[derive(Clone, Copy, Debug, PartialEq, Eq, Structural)]
pub struct WouldBlock;

/// The abstract state of a [`UartPeripheral`].
pub ghost struct PortView {
    /// The receive-not-empty flag: a received byte is waiting.
    pub rx_ready: bool,
    /// The byte in the receive data register, meaningful while `rx_ready`.
    pub rx_byte: u8,
    /// The transmit-empty flag: the transmit data register can take a byte.
    pub tx_ready: bool,
    /// Whether the transmit-empty interrupt line is enabled.
    pub tx_irq_enabled: bool,
    /// Every byte written to the transmit data register, oldest first.
    pub written: Seq<u8>,
}

/// The effect of writing `b` to the transmit data register: accepted and
/// recorded if the register is empty, silently lost otherwise.
pub open spec fn spec_port_write(p: PortView, b: u8) -> PortView {
    if p.tx_ready {
        PortView { written: p.written.push(b), tx_ready: false, ..p }
    } else {
        p
    }
}

/// A software model of one UART peripheral, as the driver sees it: status
/// flags, one-byte data registers, transmit-interrupt control, and the
/// record of every byte written out.
pub struct UartPeripheral {
    /// The receive-not-empty flag.
    pub rx_ready: bool,
    /// The byte in the receive data register, meaningful while `rx_ready`.
    pub rx_byte: u8,
    /// The transmit-empty flag.
    pub tx_ready: bool,
    /// Whether the transmit-empty interrupt line is enabled.
    pub tx_irq_enabled: bool,
    /// Every byte written to the transmit data register, oldest first.
    pub written: Vec<u8>,
}

impl View for UartPeripheral {
    type V = PortView;

    open spec fn view(&self) -> PortView {
        PortView {
            rx_ready: self.rx_ready,
            rx_byte: self.rx_byte,
            tx_ready: self.tx_ready,
            tx_irq_enabled: self.tx_irq_enabled,
            written: self.written@,
        }
    }
}

impl UartPeripheral {
    /// A freshly configured peripheral: nothing received, transmit data
    /// register empty, transmit interrupt disabled, nothing written yet.
    pub fn new() -> (p: Self)
        ensures
            !p@.rx_ready,
            p@.rx_byte == 0,
            p@.tx_ready,
            !p@.tx_irq_enabled,
            p@.written == Seq::<u8>::empty(),
    {
        UartPeripheral {
            rx_ready: false,
            rx_byte: 0,
            tx_ready: true,
            tx_irq_enabled: false,
            written: Vec::new(),
        }
    }

    /// Whether a received byte is waiting in the data register.
    pub fn is_receive_ready(&self) -> (r: bool)
        ensures
            r == self@.rx_ready,
    {
        self.rx_ready
    }

    /// Whether the transmit data register can take a byte.
    pub fn is_transmit_ready(&self) -> (r: bool)
        ensures
            r == self@.tx_ready,
    {
        self.tx_ready
    }

    /// Non-blocking read of the receive data register; reading consumes
    /// the byte and clears the receive-not-empty flag.
    pub fn read(&mut self) -> (r: Result<u8, WouldBlock>)
        ensures
            old(self)@.rx_ready ==> r == Ok::<u8, WouldBlock>(old(self)@.rx_byte)
                && final(self)@ == (PortView { rx_ready: false, ..old(self)@ }),
            !old(self)@.rx_ready ==> r == Err::<u8, WouldBlock>(WouldBlock)
                && final(self)@ == old(self)@,
    {
        if self.rx_ready {
            self.rx_ready = false;
            Ok(self.rx_byte)
        } else {
            Err(WouldBlock)
        }
    }

    /// Non-blocking write to the transmit data register.
    pub fn write(&mut self, b: u8) -> (r: Result<(), WouldBlock>)
        ensures
            final(self)@ == spec_port_write(old(self)@, b),
            r == Ok::<(), WouldBlock>(()) <==> old(self)@.tx_ready,
    {
        if self.tx_ready {
            self.written.push(b);
            self.tx_ready = false;
            Ok(())
        } else {
            Err(WouldBlock)
        }
    }

    /// Enables the transmit-empty interrupt line.
    pub fn enable_transmit_interrupt(&mut self)
        ensures
            final(self)@ == (PortView { tx_irq_enabled: true, ..old(self)@ }),
    {
        self.tx_irq_enabled = true;
    }

    /// Disables the transmit-empty interrupt line.
    pub fn disable_transmit_interrupt(&mut self)
        ensures
            final(self)@ == (PortView { tx_irq_enabled: false, ..old(self)@ }),
    {
        self.tx_irq_enabled = false;
    }

    /// Models the wire side: a byte arrives and raises the
    /// receive-not-empty flag. An unread earlier byte is overrun.
    pub fn receive_byte(&mut self, b: u8)
        ensures
            final(self)@ == (PortView { rx_ready: true, rx_byte: b, ..old(self)@ }),
    {
        self.rx_ready = true;
        self.rx_byte = b;
    }

    /// Models the wire side: the written byte has left the shift register,
    /// raising the transmit-empty flag again.
    pub fn complete_transmission(&mut self)
        ensures
            final(self)@ == (PortView { tx_ready: true, ..old(self)@ }),
    {
        self.tx_ready = true;
    }
}

/// The abstract state of a [`UartContext`].
pub ghost struct UartView {
    /// The peripheral model.
    pub port: PortView,
    /// Received bytes awaiting consumption, oldest first.
    pub rx: Seq<u8>,
    /// Bytes awaiting transmission, oldest first.
    pub tx: Seq<u8>,
    /// True exactly while a transmission is in flight or queued.
    pub tx_pending: bool,
}

/// One live serial channel: the peripheral handle, the two byte queues,
/// and the transmit-arming flag.
pub struct UartContext {
    /// The underlying peripheral, exclusively owned by the context.
    pub handle: UartPeripheral,
    /// Received bytes awaiting consumption; drop-oldest on overflow.
    pub rx_queue: ByteQueue,
    /// Bytes awaiting transmission; drop-newest on overflow.
    pub tx_queue: ByteQueue,
    /// True exactly while a transmission is in flight or queued.
    pub tx_pending: bool,
}

impl View for UartContext {
    type V = UartView;

    open spec fn view(&self) -> UartView {
        UartView {
            port: self.handle@,
            rx: self.rx_queue@,
            tx: self.tx_queue@,
            tx_pending: self.tx_pending,
        }
    }
}

impl UartContext {
    /// Wraps a configured peripheral with empty queues and no transmission
    /// pending.
    pub fn new(handle: UartPeripheral) -> (c: Self)
        ensures
            c@.port == handle@,
            c@.rx == Seq::<u8>::empty(),
            c@.tx == Seq::<u8>::empty(),
            !c@.tx_pending,
    {
        UartContext {
            handle,
            rx_queue: ByteQueue::new(),
            tx_queue: ByteQueue::new(),
            tx_pending: false,
        }
    }
}

/// The effect of [`write_byte`]: while a transmission is pending the byte
/// queues up (dropped silently if the queue is full); otherwise it goes
/// straight to the peripheral and the transmit-empty interrupt is armed.
pub open spec fn spec_write_byte(s: UartView, b: u8) -> UartView {
    if s.tx_pending {
        UartView { tx: enqueue_drop_newest(s.tx, b), ..s }
    } else {
        UartView {
            port: PortView { tx_irq_enabled: true, ..spec_port_write(s.port, b) },
            tx_pending: true,
            ..s
        }
    }
}

/// The effect of [`write`]: one [`spec_write_byte`] per byte, in order.
pub open spec fn spec_write(s: UartView, bs: Seq<u8>) -> UartView
    decreases bs.len(),
{
    if bs.len() == 0 {
        s
    } else {
        spec_write(spec_write_byte(s, bs[0]), bs.drop_first())
    }
}

/// The echo of a received byte onto the transmit queue: the byte itself,
/// and after a carriage return also the four-byte terminal prompt.
pub open spec fn spec_echo(tx: Seq<u8>, b: u8) -> Seq<u8> {
    let tx1 = enqueue_drop_newest(tx, b);
    if b == BYTE_CR {
        enqueue_drop_newest(
            enqueue_drop_newest(
                enqueue_drop_newest(enqueue_drop_newest(tx1, BYTE_LF), BYTE_DOLLAR),
                BYTE_GT,
            ),
            BYTE_SPACE,
        )
    } else {
        tx1
    }
}

/// The receive half of [`interrupt`], taken when the receive-not-empty
/// flag is set: the byte is read, echoed onto the transmit queue
/// (drop-newest), and recorded in the receive history (drop-oldest, so
/// incoming data is never the part lost).
pub open spec fn spec_receive_step(s: UartView) -> UartView {
    let b = s.port.rx_byte;
    UartView {
        port: PortView { rx_ready: false, ..s.port },
        tx: spec_echo(s.tx, b),
        rx: enqueue_drop_oldest(s.rx, b),
        ..s
    }
}

/// Starting (or continuing) a transmission: the oldest queued byte moves
/// to the peripheral and the transmit-empty interrupt stays armed. The
/// write is lost if the data register is busy, as the hardware would.
pub open spec fn spec_start_transmission(s: UartView) -> UartView {
    UartView {
        tx: s.tx.drop_first(),
        port: PortView { tx_irq_enabled: true, ..spec_port_write(s.port, s.tx[0]) },
        tx_pending: true,
        ..s
    }
}

/// The transmit half of [`interrupt`]: on transmit-empty the next queued
/// byte goes out, or — with the queue drained — the interrupt is disarmed
/// and `tx_pending` cleared. Without transmit-empty, a transmission is
/// still started if none was pending and bytes queued up meanwhile (echo
/// bytes pushed by the receive half in the same invocation).
pub open spec fn spec_transmit_step(s: UartView) -> UartView {
    if s.port.tx_ready {
        if s.tx.len() > 0 {
            spec_start_transmission(s)
        } else {
            UartView {
                port: PortView { tx_irq_enabled: false, ..s.port },
                tx_pending: false,
                ..s
            }
        }
    } else if !s.tx_pending {
        if s.tx.len() > 0 {
            spec_start_transmission(s)
        } else {
            s
        }
    } else {
        s
    }
}

/// The effect of [`interrupt`]: the receive half runs first, so an echoed
/// byte can be picked up by the transmit half in the same invocation.
pub open spec fn spec_interrupt(s: UartView) -> UartView {
    let s1 = if s.port.rx_ready {
        spec_receive_step(s)
    } else {
        s
    };
    spec_transmit_step(s1)
}

/// Queues `byte` for transmission without blocking. The first byte of a
/// burst goes straight to the peripheral and arms the transmit-empty
/// interrupt; while a transmission is pending, bytes queue up and a full
/// queue drops the newcomer silently.
pub fn write_byte(ctx: &mut UartContext, byte: u8)
    ensures
        final(ctx)@ == spec_write_byte(old(ctx)@, byte),
{
    if ctx.tx_pending {
        let _ = ctx.tx_queue.enqueue(byte);
    } else {
        let _ = ctx.handle.write(byte);
        ctx.tx_pending = true;
        ctx.handle.enable_transmit_interrupt();
    }
}

/// Queues every byte of `bytes` for transmission, in order, by one
/// [`write_byte`] per byte.
pub fn write(ctx: &mut UartContext, bytes: &[u8])
    ensures
        final(ctx)@ == spec_write(old(ctx)@, bytes@),
{
    let ghost s0 = ctx@;
    let mut i: usize = 0;
    while i < bytes.len()
        invariant
            i <= bytes@.len(),
            ctx@ == spec_write(s0, bytes@.take(i as int)),
        decreases bytes@.len() - i,
    {
        proof {
            assert(bytes@.take(i + 1) =~= bytes@.take(i as int).push(bytes@[i as int]));
            lemma_spec_write_snoc(s0, bytes@.take(i as int), bytes@[i as int]);
        }
        write_byte(ctx, bytes[i]);
        i += 1;
    }
    proof {
        assert(bytes@.take(i as int) =~= bytes@);
    }
}

/// Appending a byte to a burst is one more [`spec_write_byte`] at the end.
proof fn lemma_spec_write_snoc(s: UartView, bs: Seq<u8>, b: u8)
    ensures
        spec_write(s, bs.push(b)) == spec_write_byte(spec_write(s, bs), b),
    decreases bs.len(),
{
    let snoc = bs.push(b);
    if bs.len() == 0 {
        assert(snoc[0] == b);
        assert(snoc.drop_first() =~= Seq::<u8>::empty());
        assert(spec_write(s, snoc) == spec_write(spec_write_byte(s, b), snoc.drop_first()));
        assert(spec_write(s, snoc) == spec_write_byte(s, b));
        assert(spec_write(s, bs) == s);
    } else {
        assert(snoc[0] == bs[0]);
        assert(snoc.drop_first() =~= bs.drop_first().push(b));
        assert(spec_write(s, snoc) == spec_write(
            spec_write_byte(s, bs[0]),
            bs.drop_first().push(b),
        ));
        lemma_spec_write_snoc(spec_write_byte(s, bs[0]), bs.drop_first(), b);
        assert(spec_write(s, bs) == spec_write(spec_write_byte(s, bs[0]), bs.drop_first()));
    }
}

/// The combined receive/transmit interrupt service routine. Must be called
/// with exclusive access to `ctx` already held — from the UART's interrupt
/// vector through a guarded or transfer cell.
pub fn interrupt(ctx: &mut UartContext)
    ensures
        final(ctx)@ == spec_interrupt(old(ctx)@),
{
    if ctx.handle.is_receive_ready() {
        match ctx.handle.read() {
            Ok(rx_byte) => {
                let _ = ctx.tx_queue.enqueue(rx_byte);
                // Receive history keeps the newest bytes: evict the oldest
                // instead of dropping the newcomer.
                ctx.rx_queue.enqueue_drop_oldest(rx_byte);
                if rx_byte == BYTE_CR {
                    let _ = ctx.tx_queue.enqueue(BYTE_LF);
                    let _ = ctx.tx_queue.enqueue(BYTE_DOLLAR);
                    let _ = ctx.tx_queue.enqueue(BYTE_GT);
                    let _ = ctx.tx_queue.enqueue(BYTE_SPACE);
                }
            },
            Err(_) => {},
        }
    }
    if ctx.handle.is_transmit_ready() {
        match ctx.tx_queue.dequeue() {
            Some(next_byte) => {
                let _ = ctx.handle.write(next_byte);
                ctx.handle.enable_transmit_interrupt();
                ctx.tx_pending = true;
            },
            None => {
                // Nothing more to send: disarm the interrupt so the empty
                // register cannot fire it again.
                ctx.handle.disable_transmit_interrupt();
                ctx.tx_pending = false;
            },
        }
    } else if !ctx.tx_pending {
        // A purely-receive invocation with no transmission in flight:
        // bytes queued meanwhile still start a transmission now.
        if let Some(next_byte) = ctx.tx_queue.dequeue() {
            let _ = ctx.handle.write(next_byte);
            ctx.handle.enable_transmit_interrupt();
            ctx.tx_pending = true;
        }
    }
}

/// The transmit-arming invariant: `tx_pending` is true exactly while the
/// transmit-empty interrupt line is enabled.
pub open spec fn tx_arming_consistent(s: UartView) -> bool {
    s.tx_pending == s.port.tx_irq_enabled
}

/// The transmit-arming invariant is preserved by a single enqueue and by
/// an interrupt invocation.
pub proof fn lemma_tx_arming_invariant(s: UartView, b: u8)
    requires
        tx_arming_consistent(s),
    ensures
        tx_arming_consistent(spec_write_byte(s, b)),
        tx_arming_consistent(spec_interrupt(s)),
{
}

/// The transmit-arming invariant is preserved by a whole burst.
pub proof fn lemma_tx_arming_invariant_write(s: UartView, bs: Seq<u8>)
    requires
        tx_arming_consistent(s),
    ensures
        tx_arming_consistent(spec_write(s, bs)),
    decreases bs.len(),
{
    if bs.len() > 0 {
        lemma_tx_arming_invariant(s, bs[0]);
        lemma_tx_arming_invariant_write(spec_write_byte(s, bs[0]), bs.drop_first());
    }
}

/// Transmit edge-arming law: from an idle transmitter (no transmission
/// pending, data register empty, queue not full), a first enqueue writes
/// its byte straight to the peripheral — nothing queued — and arms the
/// transmit interrupt; a second enqueue before any interrupt fires leaves
/// `tx_pending` set, writes nothing further to the peripheral, and grows
/// the queue by exactly one byte.
pub proof fn lemma_transmit_edge_arming(s: UartView, b1: u8, b2: u8)
    requires
        !s.tx_pending,
        s.port.tx_ready,
        s.tx.len() < QUEUE_CAPACITY,
    ensures
        ({
            let s1 = spec_write_byte(s, b1);
            let s2 = spec_write_byte(s1, b2);
            s1.tx_pending && s1.port.written == s.port.written.push(b1)
                && s1.port.tx_irq_enabled && s1.tx == s.tx && s2.tx_pending
                && s2.port.written == s1.port.written && s2.tx.len() == s.tx.len() + 1
        }),
{
}

/// The wire raising the transmit-empty flag between two interrupts.
pub open spec fn spec_raise_transmit_ready(s: UartView) -> UartView {
    UartView { port: PortView { tx_ready: true, ..s.port }, ..s }
}

/// Drain-to-idle law: with `[b1, b2]` queued and a transmission pending,
/// two interrupt invocations — the transmit-empty flag raised before each —
/// write `b1` then `b2` to the peripheral; the third finds the queue
/// empty, disarms the transmit interrupt, and clears `tx_pending`.
pub proof fn lemma_drain_to_idle(s: UartView, b1: u8, b2: u8)
    requires
        s.tx == seq![b1, b2],
        s.tx_pending,
        s.port.tx_ready,
        !s.port.rx_ready,
    ensures
        ({
            let s1 = spec_interrupt(s);
            let s2 = spec_interrupt(spec_raise_transmit_ready(s1));
            let s3 = spec_interrupt(spec_raise_transmit_ready(s2));
            s1.port.written == s.port.written.push(b1) && s1.tx_pending
                && s2.port.written == s.port.written.push(b1).push(b2) && s2.tx_pending
                && s3.port.written == s2.port.written && !s3.tx_pending
                && !s3.port.tx_irq_enabled && s3.tx.len() == 0
        }),
{
    assert(s.tx.drop_first() =~= seq![b2]);
    assert(seq![b2].drop_first() =~= Seq::<u8>::empty());
}

} // verus!
