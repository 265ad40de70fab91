use std::io::{BufReader, Read};

use pgs_decoder::reader::Reader;

#[test]
fn test_buf_reader() {
    let data: Vec<u8> = (0..100) // 1MB, more than default buffer size of 8k
        .map(|x| x as u8)
        .collect();

    let mut reader = BufReader::with_capacity(20, data.as_slice());
    loop {
        let mut buf = [0_u8; 10];
        match reader.read_exact(&mut buf) {
            Ok(()) => println!("{buf:?}"),
            Err(err) => {
                println!("Err {err:?} ");
                break;
            }
        }
    }
}

#[test]
fn reader_takes_chunks_until_the_stream_ends() {
    let data: Vec<u8> = (0..100).map(|x| x as u8).collect();
    let mut reader = Reader::new(data.as_slice());
    let mut chunks = 0;
    loop {
        match reader.read_exact(10) {
            Ok(buf) => {
                assert_eq!(buf.len(), 10);
                assert_eq!(buf[0] as usize, chunks * 10);
                assert_eq!(buf[9] as usize, chunks * 10 + 9);
                chunks += 1;
            }
            Err(err) => {
                assert_eq!(err, pgs_decoder::error::Error::Truncated { offset: 100 });
                break;
            }
        }
    }
    assert_eq!(chunks, 10);
    assert_eq!(reader.stream_position(), 100);
    assert_eq!(reader.remaining(), 0);
}

#[test]
fn reader_leaves_the_cursor_when_too_few_bytes_are_left() {
    let data = [1u8, 2, 3, 4, 5];
    let mut reader = Reader::new(&data);
    assert_eq!(reader.read_exact(3).unwrap(), &[1, 2, 3]);
    assert_eq!(reader.stream_position(), 3);
    assert_eq!(reader.remaining(), 2);
    assert_eq!(
        reader.read_exact(3),
        Err(pgs_decoder::error::Error::Truncated { offset: 3 })
    );
    assert_eq!(reader.stream_position(), 3);
    assert_eq!(reader.read_exact(2).unwrap(), &[4, 5]);
    assert_eq!(reader.read_exact(0).unwrap().len(), 0);
    assert_eq!(reader.stream_position(), 5);
}
