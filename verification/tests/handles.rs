use embytes_buffer::{Buffer, BufferError, BufferReader, BufferWriter, ReadWrite, Reader, Write};

#[test]
fn test_read_skip() {
    let mut b = [0u8; 8];
    let mut buf = Buffer::new(&mut b);

    let n = buf.write_base(&[1, 2, 3, 4]).unwrap();
    assert_eq!(n, 4);

    let mut reader = Reader::new(&mut buf);
    assert_eq!(&reader.bytes()[..], &[1, 2, 3, 4]);

    reader.add_bytes_read(3);
    assert_eq!(reader.get_bytes_read(), 3);
    reader.release();

    assert_eq!(buf.read_position(), 3);
    assert_eq!(buf.write_position(), 4);
}

#[test]
fn test_write() {
    let mut b = [0u8; 8];
    let mut buf = Buffer::new(&mut b);

    buf.write_base(&[1, 2]).unwrap();

    let mut write = buf.create_writer();
    write.bytes_mut()[0] = 3;
    write.bytes_mut()[1] = 4;

    write.commit(2).unwrap();
    write.release();

    assert_eq!(buf.data(), &[1, 2, 3, 4]);
}

#[test]
fn write_test_multi_write() {
    let mut b = [0u8; 8];
    let mut buf = Buffer::new(&mut b);

    let mut write = buf.create_writer();
    write.bytes_mut()[0] = 1;
    write.bytes_mut()[1] = 2;
    write.commit(2).unwrap();
    write.release();

    let mut write = buf.create_writer();
    write.bytes_mut()[0] = 3;
    write.bytes_mut()[1] = 4;
    write.commit(2).unwrap();
    write.release();

    assert_eq!(buf.data(), &[1, 2, 3, 4]);
    assert_eq!(buf.write_position(), 4);
}

#[test]
fn reader_exposes_the_unread_bytes_only() {
    let mut buf = Buffer::new(vec![0u8; 8]);
    buf.write_base(&[1, 2, 3, 4, 5]).unwrap();
    buf.skip(2).unwrap();

    let reader = buf.create_reader();
    assert_eq!(reader.bytes(), &[3, 4, 5]);
    assert_eq!(reader.get_bytes_read(), 0);
    reader.release();

    assert_eq!(buf.read_position(), 2);
    assert_eq!(buf.write_position(), 5);
    assert_eq!(buf.data(), &[3, 4, 5]);
}

#[test]
fn reader_declarations_accumulate() {
    let mut buf = Buffer::new(vec![0u8; 8]);
    buf.write_base(&[1, 2, 3, 4, 5]).unwrap();

    let mut reader = buf.create_reader();
    reader.add_bytes_read(1);
    reader.add_bytes_read(0);
    reader.add_bytes_read(3);
    assert_eq!(reader.get_bytes_read(), 4);
    // declaring does not move the window
    assert_eq!(reader.bytes(), &[1, 2, 3, 4, 5]);
    reader.release();

    assert_eq!(buf.read_position(), 4);
    assert_eq!(buf.data(), &[5]);
}

#[test]
fn reader_may_consume_everything_it_exposes() {
    let mut buf = Buffer::new(vec![0u8; 4]);
    buf.write_base(&[1, 2, 3, 4]).unwrap();
    let mut reader = buf.create_reader();
    reader.add_bytes_read(4);
    reader.release();
    assert_eq!(buf.remaining_len(), 0);
    assert_eq!(buf.read_position(), 4);
}

#[test]
fn reader_with_max_cuts_the_window() {
    let mut buf = Buffer::new(vec![0u8; 8]);
    buf.write_base(&[1, 2, 3, 4, 5]).unwrap();

    let mut reader = buf.create_reader_with_max(2);
    assert_eq!(reader.bytes(), &[1, 2]);
    reader.add_bytes_read(2);
    reader.release();
    assert_eq!(buf.data(), &[3, 4, 5]);

    // a limit beyond the unread bytes shows all of them
    let reader = buf.create_reader_with_max(10);
    assert_eq!(reader.bytes(), &[3, 4, 5]);
    reader.release();

    let reader = Reader::new_with_max(&mut buf, 0);
    assert_eq!(reader.bytes(), &[] as &[u8]);
    reader.release();
    assert_eq!(buf.data(), &[3, 4, 5]);
}

#[test]
fn writer_sees_the_reclaimed_space() {
    let mut b = [0u8; 8];
    let mut buf = Buffer::new(&mut b);
    buf.write_base(&[1, 2, 3, 4, 5, 6, 7, 8]).unwrap();
    buf.skip(5).unwrap();
    assert_eq!(buf.remaining_capacity(), 0);

    let mut write = buf.create_writer();
    assert_eq!(write.remaining_capacity(), 5);
    assert!(write.has_remaining_capacity());
    assert_eq!(write.bytes().len(), 5);
    assert_eq!(write.bytes_mut().len(), 5);
    write.release();

    assert_eq!(buf.read_position(), 0);
    assert_eq!(buf.write_position(), 3);
    assert_eq!(buf.data(), &[6, 7, 8]);
}

#[test]
fn attached_writer_does_not_compact() {
    let mut buf = Buffer::new(vec![0u8; 8]);
    buf.write_base(&[1, 2, 3, 4, 5, 6]).unwrap();
    buf.skip(4).unwrap();

    let mut write = Write::new(&mut buf);
    assert_eq!(write.remaining_capacity(), 2);
    write.bytes_mut()[0] = 7;
    write.commit(1).unwrap();
    write.release();

    assert_eq!(buf.read_position(), 4);
    assert_eq!(buf.write_position(), 7);
    assert_eq!(buf.data(), &[5, 6, 7]);
}

#[test]
fn uncommitted_bytes_are_never_read() {
    let mut b = [0u8; 8];
    let mut buf = Buffer::new(&mut b);
    buf.write_base(&[b'a', b'b', b'c']).unwrap();

    let mut write = buf.create_writer();
    write.bytes_mut()[0] = b'$';
    write.release();
    assert_eq!(buf.data(), b"abc");
    assert_eq!(buf.write_position(), 3);

    let mut write = buf.create_writer();
    write.bytes_mut()[0] = b'd';
    write.bytes_mut()[1] = b'e';
    write.bytes_mut()[2] = b'f';
    write.commit(3).unwrap();
    write.release();

    let mut result = [0u8; 16];
    let n = buf.read_base(&mut result).unwrap();
    assert_eq!(&result[..n], b"abcdef");
}

#[test]
fn partly_committed_bytes_are_read_up_to_the_commit() {
    let mut buf = Buffer::new(vec![0u8; 8]);
    let mut write = buf.create_writer();
    write.bytes_mut()[..4].copy_from_slice(&[1, 2, 3, 4]);
    write.commit(2).unwrap();
    write.release();
    assert_eq!(buf.data(), &[1, 2]);
}

#[test]
fn commit_moves_the_window_and_checks_the_room() {
    let mut buf = Buffer::new(vec![0u8; 4]);
    let mut write = buf.create_writer();
    assert_eq!(write.remaining_capacity(), 4);

    write.bytes_mut()[0] = 1;
    assert_eq!(write.commit(1), Ok(()));
    assert_eq!(write.remaining_capacity(), 3);
    assert_eq!(write.bytes().len(), 3);

    // the window now starts after the committed byte
    write.bytes_mut()[0] = 2;
    assert_eq!(write.commit(4), Err(BufferError::NoCapacity));
    assert_eq!(write.remaining_capacity(), 3);
    assert_eq!(write.commit(3), Ok(()));
    assert_eq!(write.remaining_capacity(), 0);
    assert!(!write.has_remaining_capacity());
    assert_eq!(write.commit(0), Ok(()));
    assert_eq!(write.commit(1), Err(BufferError::NoCapacity));
    write.release();

    assert_eq!(buf.write_position(), 4);
    assert_eq!(&buf.data()[..2], &[1, 2]);
}

#[test]
fn handles_work_through_the_traits() {
    fn drain<'a, R: BufferReader<'a>>(reader: &mut R) -> usize {
        let n = reader.bytes().len();
        reader.add_bytes_read(n);
        n
    }
    fn fill<'a, W: BufferWriter<'a>>(writer: &mut W, byte: u8) -> usize {
        let n = writer.remaining_capacity();
        for slot in writer.bytes_mut().iter_mut() {
            *slot = byte;
        }
        writer.commit(n).unwrap();
        n
    }

    let mut buf = Buffer::new(vec![0u8; 4]);
    let mut write = buf.create_writer();
    assert_eq!(fill(&mut write, 7), 4);
    write.release();
    assert_eq!(buf.data(), &[7, 7, 7, 7]);

    let mut reader = buf.create_reader();
    assert_eq!(drain(&mut reader), 4);
    reader.release();
    assert_eq!(buf.remaining_len(), 0);
}

/// Looks for a comma in what `reader` exposes. When there is one, the bytes
/// before it are returned and declared consumed together with the
/// comma; when there is none, nothing is consumed.
fn read_til_comma<'a, R: BufferReader<'a>>(reader: &mut R) -> Option<Vec<u8>> {
    let seen = reader.bytes();
    let at = seen.iter().position(|byte| *byte == b',')?;
    let found = seen[..at].to_vec();
    reader.add_bytes_read(at + 1);
    Some(found)
}

#[test]
fn incomplete_message_stays_in_place() {
    let mut bytes = [0u8; 1024];
    let mut buffer = Buffer::new(&mut bytes);

    assert_eq!(buffer.push(b"abc"), Ok(()));

    // there is no comma yet
    let mut reader = buffer.create_reader();
    assert_eq!(read_til_comma(&mut reader), None);
    reader.release();
    assert_eq!(buffer.data(), b"abc");

    assert_eq!(buffer.push(b"def,1234"), Ok(()));

    // now there is one
    let mut reader = buffer.create_reader();
    assert_eq!(read_til_comma(&mut reader), Some(b"abcdef".to_vec()));
    reader.release();

    assert_eq!(buffer.data(), b"1234");
}
