use uart_irq::uart_driver::{interrupt, write_byte, UartContext, UartPeripheral, WouldBlock};

fn fresh_context() -> UartContext {
    UartContext::new(UartPeripheral::new())
}

fn drain(q: &mut uart_irq::queue::ByteQueue) -> Vec<u8> {
    let mut out = Vec::new();
    while let Some(b) = q.dequeue() {
        out.push(b);
    }
    out
}

#[test]
fn new_context_is_idle() {
    let ctx = fresh_context();
    assert!(!ctx.tx_pending);
    assert!(!ctx.handle.tx_irq_enabled);
    assert!(ctx.handle.tx_ready);
    assert!(!ctx.handle.rx_ready);
    assert!(ctx.handle.written.is_empty());
}

#[test]
fn peripheral_read_empty_would_block() {
    let mut port = UartPeripheral::new();
    assert_eq!(port.read(), Err(WouldBlock));
    port.receive_byte(7);
    assert_eq!(port.read(), Ok(7));
    // Reading consumed the byte.
    assert_eq!(port.read(), Err(WouldBlock));
}

#[test]
fn peripheral_write_busy_would_block() {
    let mut port = UartPeripheral::new();
    assert_eq!(port.write(1), Ok(()));
    // The data register is busy until the byte leaves the shift register.
    assert_eq!(port.write(2), Err(WouldBlock));
    port.complete_transmission();
    assert_eq!(port.write(2), Ok(()));
    assert_eq!(port.written, vec![1, 2]);
}

#[test]
fn transmit_edge_arming() {
    // From tx_pending == false, the first byte goes straight to the
    // peripheral and arms the interrupt; the second byte queues up.
    let mut ctx = fresh_context();
    write_byte(&mut ctx, b'x');
    assert!(ctx.tx_pending);
    assert!(ctx.handle.tx_irq_enabled);
    assert_eq!(ctx.handle.written, vec![b'x']);
    assert_eq!(ctx.tx_queue.len(), 0);

    write_byte(&mut ctx, b'y');
    assert!(ctx.tx_pending);
    assert_eq!(ctx.handle.written, vec![b'x']);
    assert_eq!(ctx.tx_queue.len(), 1);
}

#[test]
fn transmit_queue_full_drops_newest_silently() {
    let mut ctx = fresh_context();
    write_byte(&mut ctx, 0);
    for i in 0..40u8 {
        write_byte(&mut ctx, i);
    }
    // The first byte went out; of the 40 queued attempts only 32 fit.
    assert_eq!(ctx.handle.written, vec![0]);
    assert_eq!(drain(&mut ctx.tx_queue), (0..32u8).collect::<Vec<u8>>());
}

#[test]
fn write_preserves_order() {
    let mut ctx = fresh_context();
    uart_irq::uart_driver::write(&mut ctx, b"hello");
    assert_eq!(ctx.handle.written, vec![b'h']);
    assert_eq!(drain(&mut ctx.tx_queue), b"ello".to_vec());
    assert!(ctx.tx_pending);
}

#[test]
fn drain_to_idle() {
    // tx_queue holds [b1, b2] with a transmission pending: two interrupts
    // (transmit-empty each time) drain b1 then b2; the third finds the
    // queue empty and disarms.
    let mut ctx = fresh_context();
    ctx.tx_queue.enqueue(b'1').unwrap();
    ctx.tx_queue.enqueue(b'2').unwrap();
    ctx.tx_pending = true;
    ctx.handle.tx_irq_enabled = true;

    interrupt(&mut ctx);
    assert_eq!(ctx.handle.written, vec![b'1']);
    assert!(ctx.tx_pending);

    ctx.handle.complete_transmission();
    interrupt(&mut ctx);
    assert_eq!(ctx.handle.written, vec![b'1', b'2']);
    assert!(ctx.tx_pending);

    ctx.handle.complete_transmission();
    interrupt(&mut ctx);
    assert_eq!(ctx.handle.written, vec![b'1', b'2']);
    assert!(!ctx.tx_pending);
    assert!(!ctx.handle.tx_irq_enabled);
    assert_eq!(ctx.tx_queue.len(), 0);
}

#[test]
fn echo_and_prompt_on_carriage_return() {
    // Receiving '\r' with an empty transmit queue and no transmission
    // pending: the receive half queues the echo and the four-byte prompt,
    // and the transmit half of the same invocation sends the '\r'.
    let mut ctx = fresh_context();
    ctx.handle.receive_byte(b'\r');
    interrupt(&mut ctx);

    assert_eq!(ctx.handle.written, vec![b'\r']);
    assert!(ctx.tx_pending);
    assert!(ctx.handle.tx_irq_enabled);
    assert_eq!(drain(&mut ctx.tx_queue), vec![b'\n', b'$', b'>', b' ']);
    assert_eq!(drain(&mut ctx.rx_queue), vec![b'\r']);
}

#[test]
fn echo_of_ordinary_byte_has_no_prompt() {
    let mut ctx = fresh_context();
    ctx.handle.receive_byte(b'a');
    interrupt(&mut ctx);

    // The echo was queued by the receive half and picked up by the
    // transmit half in the same invocation.
    assert_eq!(ctx.handle.written, vec![b'a']);
    assert_eq!(ctx.tx_queue.len(), 0);
    assert_eq!(drain(&mut ctx.rx_queue), vec![b'a']);
}

#[test]
fn receive_history_drops_oldest() {
    // 33 received bytes: the history keeps the newest 32, so byte 0 is the
    // one discarded. Echoes beyond the transmit queue's capacity are
    // dropped silently, but the history never loses incoming data.
    let mut ctx = fresh_context();
    for i in 0..33u8 {
        ctx.handle.receive_byte(i);
        interrupt(&mut ctx);
    }
    assert_eq!(drain(&mut ctx.rx_queue), (1..33u8).collect::<Vec<u8>>());
}

#[test]
fn receive_while_transmission_pending_keeps_echo_queued() {
    let mut ctx = fresh_context();
    write_byte(&mut ctx, b'q');
    assert_eq!(ctx.handle.written, vec![b'q']);

    // The data register is still busy, so the echo stays in the queue.
    ctx.handle.receive_byte(b'z');
    interrupt(&mut ctx);
    assert_eq!(ctx.handle.written, vec![b'q']);
    assert!(ctx.tx_pending);
    assert_eq!(drain(&mut ctx.rx_queue), vec![b'z']);
    assert_eq!(drain(&mut ctx.tx_queue), vec![b'z']);
}
