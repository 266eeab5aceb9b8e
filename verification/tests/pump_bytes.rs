use rem::pump::{read_chunk, ByteAccumulator};

#[test]
fn chunks_accumulate_in_arrival_order() {
    let mut acc = ByteAccumulator::new();
    assert!(!acc.pump_step(Some(vec![1, 2])));
    assert!(!acc.pump_step(Some(vec![])));
    assert!(!acc.pump_step(Some(vec![3])));
    assert_eq!(acc.bytes().as_slice(), &[1, 2, 3]);
}

#[test]
fn stream_close_reports_accumulated_output() {
    let mut acc = ByteAccumulator::new();
    assert!(!acc.pump_step(Some(b"done\n".to_vec())));
    let closed = acc.pump_step(None);
    assert!(closed);
    assert_eq!(acc.bytes().as_slice(), b"done\n");
    assert_eq!(String::from_utf8(acc.bytes().clone()).unwrap(), "done\n");
}

#[test]
fn close_leaves_bytes_untouched() {
    let mut acc = ByteAccumulator::new();
    acc.pump_step(Some(vec![9, 8, 7]));
    acc.pump_step(None);
    assert_eq!(acc.bytes().as_slice(), &[9, 8, 7]);
}

#[test]
fn read_chunk_takes_the_first_count_bytes() {
    let buf = [10u8, 20, 30, 40, 50];
    let chunk = read_chunk(&buf, 3);
    assert_eq!(chunk, vec![10, 20, 30]);
    let empty = read_chunk(&buf, 0);
    assert!(empty.is_empty());
    let whole = read_chunk(&buf, 5);
    assert_eq!(whole, vec![10, 20, 30, 40, 50]);
}
