use indexed_kv::cursor::{self, Item, Iter, Step};
use indexed_kv::request::failure_value;
use indexed_kv::unbounded;
use indexed_kv::Poll;

/// Runs a cursor over `records` (in ascending key order) the way the host
/// would: from the first key not below `prefix`, one firing per record until
/// the bridge stops advancing.
fn walk(prefix: &[u8], records: &[(&str, &str)]) -> Vec<Result<Option<(Vec<u8>, String)>, String>> {
    let (tx, rx, mut queue) = unbounded::channel::<Item<String, String>>(8);
    let records: Vec<(&str, &str)> = records.iter().copied().filter(|r| r.0.as_bytes() >= prefix).collect();
    let prefix = prefix.to_vec();
    let mut pos = 0;
    loop {
        let step = if pos < records.len() {
            Step::Record(records[pos].0.as_bytes().to_vec(), records[pos].1.to_string())
        } else {
            Step::End
        };
        pos += 1;
        if !cursor::on_step(&prefix, &tx, &mut queue, step).0 {
            break;
        }
    }
    let mut iter = Iter::new(rx);
    let mut out = Vec::new();
    loop {
        match iter.poll_next(&mut queue) {
            Poll::Ready(Ok(Some(p))) => out.push(Ok(Some(p))),
            Poll::Ready(other) => {
                out.push(other);
                break;
            },
            Poll::Pending => panic!("cursor did not finish"),
        }
    }
    out
}

const STORE: [(&str, &str); 4] = [("key1", "1"), ("key2", "2"), ("key3", "3"), ("zero", "0")];

fn record(k: &str, v: &str) -> Result<Option<(Vec<u8>, String)>, String> {
    Ok(Some((k.as_bytes().to_vec(), v.to_string())))
}

#[test]
fn find_all_in_key_order() {
    let got = walk(b"", &STORE);
    assert_eq!(
        got,
        vec![record("key1", "1"), record("key2", "2"), record("key3", "3"), record("zero", "0"), Ok(None)]
    );
}

#[test]
fn find_by_prefix() {
    let got = walk(b"key", &STORE);
    assert_eq!(got, vec![record("key1", "1"), record("key2", "2"), record("key3", "3"), Ok(None)]);
}

#[test]
fn find_skips_keys_before_range() {
    let store = [("a", "x"), ("kex", "y"), ("key", "z"), ("keya", "w"), ("kez", "q")];
    let got = walk(b"key", &store);
    assert_eq!(got, vec![record("key", "z"), record("keya", "w"), Ok(None)]);
}

#[test]
fn find_ends_at_first_firing_past_range() {
    let (tx, rx, mut queue) = unbounded::channel::<Item<u8, String>>(2);
    let mut iter = Iter::new(rx);
    assert!(matches!(iter.poll_next(&mut queue), Poll::Pending));
    // With a lower bound of "b", a store holding "a" and "c" first fires at "c".
    assert_eq!(cursor::on_step(&b"b".to_vec(), &tx, &mut queue, Step::Record(b"c".to_vec(), 1)), (false, true));
    assert_eq!(queue.len(), 1);
    assert!(matches!(iter.poll_next(&mut queue), Poll::Ready(Ok(None))));
}

#[test]
fn find_on_empty_store() {
    let got = walk(b"", &[]);
    assert_eq!(got, vec![Ok(None)]);
}

#[test]
fn find_prefix_matching_nothing() {
    let got = walk(b"nokey", &STORE);
    assert_eq!(got, vec![Ok(None)]);
}

#[test]
fn cursor_error_ends_iteration() {
    let (tx, rx, mut queue) = unbounded::channel::<Item<String, String>>(8);
    let prefix: Vec<u8> = Vec::new();
    assert_eq!(cursor::on_step(&prefix, &tx, &mut queue, Step::Record(b"a".to_vec(), "1".to_string())), (true, false));
    assert_eq!(cursor::on_step(&prefix, &tx, &mut queue, Step::Failed("broken".to_string())), (false, false));
    let mut iter = Iter::new(rx);
    assert!(matches!(iter.poll_next(&mut queue), Poll::Ready(Ok(Some(_)))));
    match iter.poll_next(&mut queue) {
        Poll::Ready(Err(e)) => assert_eq!(e, "broken"),
        _ => panic!("error not surfaced"),
    }
    assert!(matches!(iter.poll_next(&mut queue), Poll::Pending));
}

#[test]
fn advance_failure_is_surfaced() {
    let (tx, rx, mut queue) = unbounded::channel::<Item<u8, String>>(2);
    let mut iter = Iter::new(rx);
    assert!(matches!(iter.poll_next(&mut queue), Poll::Pending));
    assert!(cursor::on_advance_failed(&tx, &mut queue, "no advance".to_string()));
    match iter.poll_next(&mut queue) {
        Poll::Ready(Err(e)) => assert_eq!(e, "no advance"),
        _ => panic!("error not surfaced"),
    }
}

#[test]
fn iteration_ends_when_producers_vanish() {
    let (tx, rx, mut queue) = unbounded::channel::<Item<u8, String>>(2);
    let mut iter = Iter::new(rx);
    assert!(matches!(iter.poll_next(&mut queue), Poll::Pending));
    tx.release(&mut queue);
    assert!(matches!(iter.poll_next(&mut queue), Poll::Ready(Ok(None))));
}

#[test]
fn firings_after_close_are_dropped() {
    let (tx, rx, mut queue) = unbounded::channel::<Item<u8, String>>(2);
    let iter = Iter::new(rx);
    iter.close(&mut queue);
    let prefix: Vec<u8> = Vec::new();
    assert_eq!(cursor::on_step(&prefix, &tx, &mut queue, Step::Record(b"k".to_vec(), 1)), (true, false));
    assert_eq!(queue.len(), 0);
}

#[test]
fn first_record_wakes_suspended_consumer() {
    let (tx, rx, mut queue) = unbounded::channel::<Item<u8, String>>(2);
    let mut iter = Iter::new(rx);
    let prefix = b"k".to_vec();
    assert!(matches!(iter.poll_next(&mut queue), Poll::Pending));
    assert_eq!(cursor::on_step(&prefix, &tx, &mut queue, Step::Record(b"k1".to_vec(), 1)), (true, true));
    assert_eq!(cursor::on_step(&prefix, &tx, &mut queue, Step::Record(b"k2".to_vec(), 2)), (true, false));
    assert_eq!(cursor::on_step(&prefix, &tx, &mut queue, Step::Record(b"l".to_vec(), 3)), (false, false));
    match iter.poll_next(&mut queue) {
        Poll::Ready(Ok(Some((k, v)))) => {
            assert_eq!(k, b"k1".to_vec());
            assert_eq!(v, 1);
        },
        _ => panic!("record missing"),
    }
}

#[test]
fn outcome_collapses_items() {
    assert_eq!(cursor::outcome::<u8, String>(None), Ok(None));
    assert_eq!(cursor::outcome::<u8, String>(Some(None)), Ok(None));
    assert_eq!(cursor::outcome::<u8, String>(Some(Some(Ok((vec![1], 2))))), Ok(Some((vec![1], 2))));
    assert_eq!(cursor::outcome::<u8, String>(Some(Some(Err("e".to_string())))), Err("e".to_string()));
}

#[test]
fn prefix_helper() {
    assert!(cursor::starts_with(&b"key1".to_vec(), &b"key".to_vec()));
    assert!(cursor::starts_with(&b"key".to_vec(), &Vec::new()));
    assert!(!cursor::starts_with(&b"ke".to_vec(), &b"key".to_vec()));
    assert!(!cursor::starts_with(&b"kez".to_vec(), &b"key".to_vec()));
}

#[test]
fn failure_value_picks_reported_error() {
    assert_eq!(failure_value::<&str>(Ok(Some("dom")), "db get failed"), "dom");
    assert_eq!(failure_value::<&str>(Ok(None), "db get failed"), "db get failed");
    assert_eq!(failure_value::<&str>(Err("read"), "db get failed"), "read");
}
