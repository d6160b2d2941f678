use embytes_buffer::{Buffer, BufferError, BufferReader, BufferWriter, ReadWrite};

fn cursors_in_order<const N: usize>(buf: &Buffer<[u8; N]>) -> bool {
    buf.read_position() <= buf.write_position() && buf.write_position() <= buf.capacity()
}

#[test]
fn cursors_stay_in_order_through_a_session() {
    let mut buf = Buffer::new([0u8; 4]);
    assert!(cursors_in_order(&buf));
    buf.write_base(&[1, 2, 3, 4, 5]).unwrap();
    assert!(cursors_in_order(&buf));
    let mut out = [0u8; 3];
    buf.read_base(&mut out).unwrap();
    assert!(cursors_in_order(&buf));
    assert_eq!(buf.push(&[6, 7, 8, 9]), Err(BufferError::NoCapacity));
    assert!(cursors_in_order(&buf));
    buf.push(&[6, 7, 8]).unwrap();
    assert!(cursors_in_order(&buf));
    assert_eq!(buf.skip(5), Err(BufferError::NoData));
    buf.skip(4).unwrap();
    assert!(cursors_in_order(&buf));
    buf.shift();
    assert!(cursors_in_order(&buf));
    let mut w = buf.create_writer();
    w.commit(4).unwrap();
    w.release();
    assert!(cursors_in_order(&buf));
    let mut r = buf.create_reader();
    r.add_bytes_read(4);
    r.release();
    assert!(cursors_in_order(&buf));
    buf.reset();
    assert!(cursors_in_order(&buf));
}

#[test]
fn round_trip_returns_what_was_written() {
    let mut buf = Buffer::new(vec![0u8; 8]);
    let src = [10u8, 20, 30, 40, 50, 60, 70, 80];
    assert_eq!(buf.write_base(&src), Ok(8));
    let mut out = [0u8; 8];
    assert_eq!(buf.read_base(&mut out), Ok(8));
    assert_eq!(out, src);
    assert_eq!(buf.remaining_len(), 0);

    // again, from a state with dead bytes only
    assert_eq!(buf.write_base(&src[..5]), Ok(5));
    let mut out = [0u8; 5];
    assert_eq!(buf.read_base(&mut out), Ok(5));
    assert_eq!(out, src[..5]);
}

#[test]
fn round_trip_through_push() {
    let mut buf = Buffer::new(vec![0u8; 8]);
    buf.write_base(&[1, 2, 3, 4]).unwrap();
    buf.skip(4).unwrap();
    let src = [9u8, 8, 7, 6, 5, 4, 3, 2];
    assert_eq!(buf.push(&src), Ok(()));
    let mut out = [0u8; 8];
    assert_eq!(buf.read_base(&mut out), Ok(8));
    assert_eq!(out, src);
}

#[test]
fn write_stores_part_of_what_does_not_fit_beside_dead_bytes() {
    // nothing is unread, yet four bytes are dead and four are free
    let mut buf = Buffer::new(vec![0u8; 8]);
    buf.write_base(&[1, 2, 3, 4]).unwrap();
    buf.skip(4).unwrap();
    assert_eq!(buf.write_base(&[9, 8, 7, 6, 5, 4, 3, 2]), Ok(4));
    assert_eq!(buf.data(), &[9, 8, 7, 6]);
}

#[test]
fn shift_keeps_the_unread_bytes() {
    let mut buf = Buffer::new(vec![0u8; 8]);
    buf.write_base(&[1, 2, 3, 4, 5, 6]).unwrap();
    buf.skip(2).unwrap();
    let before = buf.data().to_vec();
    let (read, write, len) = (buf.read_position(), buf.write_position(), buf.remaining_len());
    buf.shift();
    assert_eq!(buf.data(), &before[..]);
    assert_eq!(buf.remaining_len(), len);
    assert_eq!(read - buf.read_position(), write - buf.write_position());
    assert_eq!(buf.remaining_capacity(), 8 - len);
}

#[test]
fn partial_write_against_atomic_push() {
    let mut b = [0u8; 4];
    let mut buf = Buffer::new(&mut b);
    assert_eq!(buf.write_base(&[1, 2, 3, 4, 5, 6]), Ok(4));
    drop(buf);
    assert_eq!(&b, &[1, 2, 3, 4]);

    let mut c = [0u8; 4];
    let mut buf = Buffer::new(&mut c);
    assert_eq!(buf.push(&[1, 2, 3, 4, 5, 6]), Err(BufferError::NoCapacity));
    assert_eq!(buf.read_position(), 0);
    assert_eq!(buf.write_position(), 0);
    drop(buf);
    assert_eq!(&c, &[0, 0, 0, 0]);
}

#[test]
fn reader_released_with_nothing_declared_changes_nothing() {
    let mut b = [0u8; 8];
    let mut buf = Buffer::new(&mut b);
    buf.write_base(&[1, 2, 3, 4]).unwrap();
    buf.skip(1).unwrap();
    let reader = buf.create_reader();
    assert_eq!(reader.bytes(), &[2, 3, 4]);
    reader.release();
    assert_eq!(buf.read_position(), 1);
    assert_eq!(buf.write_position(), 4);
    drop(buf);
    assert_eq!(&b, &[1, 2, 3, 4, 0, 0, 0, 0]);
}

#[test]
fn writer_exposes_capacity_less_unread_bytes() {
    let mut buf = Buffer::new(vec![0u8; 8]);
    buf.write_base(&[1, 2, 3, 4, 5, 6]).unwrap();
    buf.skip(3).unwrap();
    let unread = buf.remaining_len();
    let mut write = buf.create_writer();
    assert_eq!(write.bytes_mut().len(), 8 - unread);
    write.release();
}

#[test]
fn skip_at_the_boundary() {
    let mut buf = Buffer::new(vec![0u8; 8]);
    buf.write_base(&[1, 2, 3]).unwrap();
    let n = buf.remaining_len();
    assert_eq!(buf.skip(n + 1), Err(BufferError::NoData));
    assert_eq!(buf.read_position(), 0);
    assert_eq!(buf.write_position(), 3);
    assert_eq!(buf.skip(n), Ok(()));
    assert_eq!(buf.remaining_len(), 0);
}
