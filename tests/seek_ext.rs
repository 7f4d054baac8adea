use seek_ext::{Cursor, InvalidSeek, Seek, SeekExt, SeekFrom};

#[test]
fn stream_len() -> Result<(), InvalidSeek> {
    let mut c = Cursor::new(vec![0; 15]);
    assert_eq!(c.stream_len()?, 15);

    c.seek(SeekFrom::End(0))?;
    let old_pos = c.stream_position()?;
    assert_eq!(c.stream_len()?, 15);
    assert_eq!(c.stream_position()?, old_pos);

    c.seek(SeekFrom::Start(7))?;
    c.seek(SeekFrom::Current(2))?;
    let old_pos = c.stream_position()?;
    assert_eq!(c.stream_len()?, 15);
    assert_eq!(c.stream_position()?, old_pos);
    Ok(())
}

#[test]
fn stream_position() -> Result<(), InvalidSeek> {
    // Every assertion is made twice: the query must not move the cursor.
    let mut c = Cursor::new(vec![0; 15]);
    assert_eq!(c.stream_position()?, 0);
    assert_eq!(c.stream_position()?, 0);

    c.seek(SeekFrom::End(0))?;
    assert_eq!(c.stream_position()?, 15);
    assert_eq!(c.stream_position()?, 15);

    c.seek(SeekFrom::Start(7))?;
    c.seek(SeekFrom::Current(2))?;
    assert_eq!(c.stream_position()?, 9);
    assert_eq!(c.stream_position()?, 9);

    c.seek(SeekFrom::End(-3))?;
    c.seek(SeekFrom::Current(1))?;
    c.seek(SeekFrom::Current(-5))?;
    assert_eq!(c.stream_position()?, 8);
    assert_eq!(c.stream_position()?, 8);
    Ok(())
}

#[test]
fn len_at_start_keeps_position() {
    let mut c = Cursor::new(vec![0; 15]);
    assert_eq!(c.stream_len(), Ok(15));
    assert_eq!(c.stream_position(), Ok(0));
}

#[test]
fn len_at_end_keeps_position() {
    let mut c = Cursor::new(vec![0; 15]);
    assert_eq!(c.seek(SeekFrom::End(0)), Ok(15));
    assert_eq!(c.stream_len(), Ok(15));
    assert_eq!(c.stream_position(), Ok(15));
}

#[test]
fn len_in_middle_keeps_position() {
    let mut c = Cursor::new(vec![0; 15]);
    assert_eq!(c.seek(SeekFrom::Start(7)), Ok(7));
    assert_eq!(c.seek(SeekFrom::Current(2)), Ok(9));
    assert_eq!(c.stream_len(), Ok(15));
    assert_eq!(c.stream_position(), Ok(9));
}

#[test]
fn len_past_end_keeps_position() {
    let mut c = Cursor::new(vec![1, 2, 3]);
    assert_eq!(c.seek(SeekFrom::Start(40)), Ok(40));
    assert_eq!(c.stream_len(), Ok(3));
    assert_eq!(c.stream_position(), Ok(40));
}

#[test]
fn len_of_empty_stream() {
    let mut c = Cursor::new(Vec::new());
    assert_eq!(c.stream_len(), Ok(0));
    assert_eq!(c.stream_position(), Ok(0));
}

#[test]
fn position_query_is_repeatable() {
    let mut c = Cursor::new(vec![0; 6]);
    assert_eq!(c.seek(SeekFrom::Current(4)), Ok(4));
    assert_eq!(c.stream_position(), Ok(4));
    assert_eq!(c.stream_position(), Ok(4));
    assert_eq!(c.seek(SeekFrom::Current(-3)), Ok(1));
    assert_eq!(c.stream_position(), Ok(1));
}

#[test]
fn seek_before_start_fails() {
    let mut c = Cursor::new(vec![0; 15]);
    assert_eq!(c.seek(SeekFrom::Start(5)), Ok(5));
    assert_eq!(c.seek(SeekFrom::Current(-6)), Err(InvalidSeek));
    assert_eq!(c.seek(SeekFrom::End(-16)), Err(InvalidSeek));
    assert_eq!(c.stream_position(), Ok(5));
}

#[test]
fn seek_past_largest_offset_fails() {
    let mut c = Cursor::new(vec![0; 15]);
    assert_eq!(c.seek(SeekFrom::Start(u64::MAX)), Ok(u64::MAX));
    assert_eq!(c.seek(SeekFrom::Current(1)), Err(InvalidSeek));
    assert_eq!(c.stream_position(), Ok(u64::MAX));
    assert_eq!(c.stream_len(), Ok(15));
    assert_eq!(c.stream_position(), Ok(u64::MAX));
}
