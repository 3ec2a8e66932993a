use sg2002_hal::console::{irq_num, read_bytes, translate_bytes, write_bytes, SimUart};

#[test]
fn write_translates_line_feeds() {
    let mut dev = SimUart::new();
    write_bytes(&mut dev, b"hi\nthere\n");
    assert_eq!(dev.transmitted_bytes(), b"hi\r\nthere\r\n".to_vec());
}

#[test]
fn write_passes_other_bytes_unchanged() {
    let mut dev = SimUart::new();
    write_bytes(&mut dev, b"abc \r \x00 xyz");
    assert_eq!(dev.transmitted_bytes(), b"abc \r \x00 xyz".to_vec());
}

#[test]
fn write_empty_transmits_nothing() {
    let mut dev = SimUart::new();
    write_bytes(&mut dev, b"");
    assert_eq!(dev.transmitted_bytes(), Vec::<u8>::new());
}

#[test]
fn write_only_line_feeds() {
    let mut dev = SimUart::new();
    write_bytes(&mut dev, b"\n\n");
    assert_eq!(dev.transmitted_bytes(), b"\r\n\r\n".to_vec());
}

#[test]
fn writes_append_in_order() {
    let mut dev = SimUart::new();
    write_bytes(&mut dev, b"a\n");
    write_bytes(&mut dev, b"b");
    assert_eq!(dev.transmitted_bytes(), b"a\r\nb".to_vec());
}

#[test]
fn translate_bytes_expands_line_feeds() {
    assert_eq!(translate_bytes(b"x\ny"), b"x\r\ny".to_vec());
    assert_eq!(translate_bytes(b""), Vec::<u8>::new());
    assert_eq!(translate_bytes(b"\n"), b"\r\n".to_vec());
}

#[test]
fn read_from_empty_device_returns_zero_and_keeps_buffer() {
    let mut dev = SimUart::new();
    let mut buf = vec![7u8; 4];
    let n = read_bytes(&mut dev, &mut buf);
    assert_eq!(n, 0);
    assert_eq!(buf, vec![7u8; 4]);
}

#[test]
fn read_stops_when_device_runs_dry() {
    let mut dev = SimUart::new();
    dev.feed_input(1);
    dev.feed_input(2);
    dev.feed_input(3);
    let mut buf = vec![0u8; 8];
    let n = read_bytes(&mut dev, &mut buf);
    assert_eq!(n, 3);
    assert!(n <= buf.len());
    assert_eq!(&buf[..3], &[1, 2, 3]);
    assert_eq!(&buf[3..], &[0u8; 5]);
}

#[test]
fn read_never_exceeds_buffer_length() {
    let mut dev = SimUart::new();
    for b in 10..20u8 {
        dev.feed_input(b);
    }
    let mut buf = vec![0u8; 4];
    let n = read_bytes(&mut dev, &mut buf);
    assert_eq!(n, 4);
    assert_eq!(buf, vec![10, 11, 12, 13]);
    // The rest stays buffered in the device for the next call.
    let mut buf2 = vec![0u8; 8];
    let n2 = read_bytes(&mut dev, &mut buf2);
    assert_eq!(n2, 6);
    assert_eq!(&buf2[..6], &[14, 15, 16, 17, 18, 19]);
}

#[test]
fn read_into_empty_buffer_is_zero() {
    let mut dev = SimUart::new();
    dev.feed_input(42);
    let mut buf: Vec<u8> = Vec::new();
    let n = read_bytes(&mut dev, &mut buf);
    assert_eq!(n, 0);
}

#[test]
fn getchar_is_fifo() {
    let mut dev = SimUart::new();
    assert_eq!(dev.getchar(), None);
    dev.feed_input(5);
    dev.feed_input(6);
    assert_eq!(dev.getchar(), Some(5));
    assert_eq!(dev.getchar(), Some(6));
    assert_eq!(dev.getchar(), None);
}

#[test]
fn console_reports_no_interrupt_line() {
    assert_eq!(irq_num(), None);
}
