use fshare::error::TransferError;
use fshare::transfer::{declared_size, frame, receive_body, size_prefix, take_chunk, PREFIX_LEN};

fn cut(stream: &[u8], size: usize) -> Vec<Vec<u8>> {
    stream.chunks(size).map(|chunk| chunk.to_vec()).collect()
}

#[test]
fn prefix_has_eight_bytes() {
    assert_eq!(PREFIX_LEN, 8);
    assert_eq!(size_prefix(0).len(), 8);
}

#[test]
fn size_prefix_is_big_endian() {
    assert_eq!(size_prefix(0), [0, 0, 0, 0, 0, 0, 0, 0]);
    assert_eq!(size_prefix(10), [0, 0, 0, 0, 0, 0, 0, 10]);
    assert_eq!(size_prefix(256), [0, 0, 0, 0, 0, 0, 1, 0]);
    assert_eq!(size_prefix(0x0102030405060708), [1, 2, 3, 4, 5, 6, 7, 8]);
    assert_eq!(size_prefix(u64::MAX), [255; 8]);
}

#[test]
fn size_prefix_agrees_with_the_standard_library() {
    for size in [0u64, 1, 255, 256, 65535, 65536, 1 << 32, (1 << 56) + 3, u64::MAX - 1] {
        assert_eq!(size_prefix(size), size.to_be_bytes());
    }
}

#[test]
fn declared_size_reads_big_endian() {
    assert_eq!(declared_size(&[0, 0, 0, 0, 0, 0, 0, 10]), Some(10));
    assert_eq!(declared_size(&[0, 0, 0, 0, 0, 0, 1, 0]), Some(256));
    assert_eq!(
        declared_size(&[1, 2, 3, 4, 5, 6, 7, 8]),
        Some(0x0102030405060708)
    );
    assert_eq!(declared_size(&[255; 8]), Some(u64::MAX));
    assert_eq!(declared_size(&[0; 8]), Some(0));
}

#[test]
fn declared_size_wants_exactly_eight_bytes() {
    assert_eq!(declared_size(&[]), None);
    assert_eq!(declared_size(&[0, 0, 0, 0, 0, 0, 10]), None);
    assert_eq!(declared_size(&[0, 0, 0, 0, 0, 0, 0, 0, 10]), None);
}

#[test]
fn declared_size_undoes_size_prefix() {
    for size in [0u64, 1, 10, 255, 256, 1 << 20, 1 << 40, u64::MAX] {
        assert_eq!(declared_size(&size_prefix(size)), Some(size));
    }
}

#[test]
fn frame_is_prefix_then_content() {
    assert_eq!(
        frame(b"0123456789"),
        vec![0, 0, 0, 0, 0, 0, 0, 10, 48, 49, 50, 51, 52, 53, 54, 55, 56, 57]
    );
}

#[test]
fn frame_of_an_empty_file_is_the_prefix_alone() {
    assert_eq!(frame(b""), vec![0, 0, 0, 0, 0, 0, 0, 0]);
}

#[test]
fn take_chunk_takes_all_of_a_read_that_is_owed() {
    assert_eq!(take_chunk(10, b"abc"), b"abc".to_vec());
    assert_eq!(take_chunk(3, b"abc"), b"abc".to_vec());
}

#[test]
fn take_chunk_never_reaches_past_what_is_owed() {
    assert_eq!(take_chunk(2, b"abc"), b"ab".to_vec());
    assert_eq!(take_chunk(1, b"abc"), b"a".to_vec());
    assert_eq!(take_chunk(0, b"abc"), Vec::<u8>::new());
}

#[test]
fn take_chunk_of_an_empty_read_is_empty() {
    assert_eq!(take_chunk(5, b""), Vec::<u8>::new());
}

#[test]
fn receive_body_is_whole_for_every_cut_of_the_stream() {
    let content: Vec<u8> = (0..=99u8).collect();
    for size in 1..=101 {
        let chunks = cut(&content, size);
        assert_eq!(receive_body(100, &chunks), Ok(content.clone()));
    }
}

#[test]
fn receive_body_takes_single_byte_reads() {
    let chunks = cut(b"0123456789", 1);
    assert_eq!(chunks.len(), 10);
    assert_eq!(receive_body(10, &chunks), Ok(b"0123456789".to_vec()));
}

#[test]
fn receive_body_of_an_empty_file_reads_nothing() {
    assert_eq!(receive_body(0, &vec![]), Ok(vec![]));
    assert_eq!(receive_body(0, &vec![vec![255]]), Ok(vec![]));
}

#[test]
fn receive_body_leaves_what_follows_the_file() {
    let chunks = vec![b"01234".to_vec(), b"56789\xff".to_vec(), b"\xff".to_vec()];
    assert_eq!(receive_body(10, &chunks), Ok(b"0123456789".to_vec()));
}

#[test]
fn receive_body_passes_over_empty_reads() {
    let chunks = vec![vec![], b"ab".to_vec(), vec![], b"c".to_vec()];
    assert_eq!(receive_body(3, &chunks), Ok(b"abc".to_vec()));
}

#[test]
fn receive_body_fails_with_short_read_when_the_stream_ends_early() {
    let chunks = vec![b"01234".to_vec(), b"5678".to_vec()];
    assert_eq!(receive_body(10, &chunks), Err(TransferError::ShortRead));
    assert_eq!(receive_body(1, &vec![]), Err(TransferError::ShortRead));
    assert_eq!(receive_body(u64::MAX, &chunks), Err(TransferError::ShortRead));
}

#[test]
fn a_framed_file_comes_back_whole() {
    for length in [0usize, 1, 7, 8, 9, 10, 255, 256, 1000] {
        let content: Vec<u8> = (0..length).map(|i| (i * 7 % 251) as u8).collect();
        let mut stream = frame(&content);
        stream.push(255);
        let declared = declared_size(&stream[..8]).unwrap();
        assert_eq!(declared, length as u64);
        for size in [1usize, 2, 3, 8, 64, 4096] {
            let chunks = cut(&stream[8..], size);
            let body = receive_body(declared, &chunks).unwrap();
            assert_eq!(body.len(), length);
            assert_eq!(body, content);
        }
    }
}
