use streamchat::csv_stream::{parse_csv_rows, scheduled_message, CsvRow};
use std::time::{Duration, Instant};
use streamchat::csv_stream::{CsvError, CsvMessageStream};

#[test]
fn rows_become_scheduled_messages() {
    let start = Instant::now();
    let text = "user,message,delay\nalice,hello,0\nbob,hi there,5\r\ncarol,+3 cheers,+2\n";
    let mut s = CsvMessageStream::from_contents(text, start).unwrap();
    assert_eq!(s.pending(), 3);
    assert_eq!(s.messages[1].timestamp, start + Duration::from_secs(5));
    assert_eq!(s.messages[2].timestamp, start + Duration::from_secs(2));
    let m = s.next_message(start).unwrap();
    assert_eq!(m.username, "alice");
    assert_eq!(m.user_id, "alice");
    assert_eq!(m.message, "hello");
    assert_eq!(m.broadcast_id, "placeholder_id");
    assert_eq!(m.broadcaster_name, "placeholder_name");
    assert_eq!(m.timestamp, start);
    // bob is due after five seconds; carol's later row waits behind him.
    let at = |secs: u64| start + Duration::from_secs(secs);
    assert!(s.next_message(at(4)).is_none());
    assert_eq!(s.next_message(at(5)).unwrap().username, "bob");
    assert_eq!(s.next_message(at(100)).unwrap().message, "+3 cheers");
    assert!(s.next_message(at(1000)).is_none());
}

#[test]
fn bad_rows_are_reported() {
    let start = Instant::now();
    match parse_csv_rows("h\na,b\nc,d,1\n") {
        Err(CsvError::MissingFields(l)) => assert_eq!(l, "a,b"),
        other => panic!("unexpected {:?}", other),
    }
    match parse_csv_rows("h\nc,d,1\na,b,x\nq\n") {
        Err(CsvError::InvalidNumber(l)) => assert_eq!(l, "a,b,x"),
        other => panic!("unexpected {:?}", other),
    }
    assert_eq!(CsvMessageStream::from_contents("", start).unwrap().pending(), 0);
    assert_eq!(CsvMessageStream::from_contents("header only", start).unwrap().pending(), 0);
}

#[test]
fn rows_are_parsed_before_scheduling() {
    let rows = parse_csv_rows("name,text,secs\nann,a b,3\nbo,,0,extra\n").unwrap();
    assert_eq!(rows.len(), 2);
    assert_eq!(rows[0].username, "ann");
    assert_eq!(rows[0].message, "a b");
    assert_eq!(rows[0].delay_secs, 3);
    assert_eq!(rows[1].username, "bo");
    assert_eq!(rows[1].message, "");
    assert_eq!(rows[1].delay_secs, 0);
    let start = Instant::now();
    let s = CsvMessageStream::schedule(rows, start).unwrap();
    assert_eq!(s.start, start);
    assert_eq!(s.messages[0].timestamp, start + Duration::from_secs(3));
    assert_eq!(s.messages[1].timestamp, start);
    assert!(matches!(parse_csv_rows("h\n1,2,-3\n"), Err(CsvError::InvalidNumber(ref l)) if l == "1,2,-3"));
}

#[test]
fn scheduling_at_given_instants() {
    let start = Instant::now();
    let later = start + Duration::from_secs(9);
    let row = CsvRow { username: "u".into(), message: "m".into(), delay_secs: 9 };
    let e = scheduled_message(&row, later);
    assert_eq!(e.timestamp, later);
    assert_eq!(e.user_id, "u");
    assert_eq!(e.username, "u");
    assert_eq!(e.message, "m");
    let rows = parse_csv_rows("h\na,b,1\nc,d,2\n").unwrap();
    let s = CsvMessageStream::schedule_at(rows, vec![Some(start), Some(later)], start).unwrap();
    assert_eq!(s.messages[1].timestamp, later);
    let rows = parse_csv_rows("h\na,b,1\nc,d,2\n").unwrap();
    assert!(matches!(
        CsvMessageStream::schedule_at(rows, vec![Some(start), None], start),
        Err(CsvError::TimestampOverflow)
    ));
    assert!(CsvMessageStream::schedule(vec![], start).unwrap().pending() == 0);
}

#[test]
fn deliveries_follow_the_file() {
    let start = Instant::now();
    let mut s = CsvMessageStream::from_contents("h\na,1,0\nb,2,3\nc,3,3\nd,4,7\n", start).unwrap();
    let mut got = vec![];
    for elapsed in [0, 0, 1, 3, 3, 3, 5, 8, 8] {
        if let Some(m) = s.next_message(start + Duration::from_secs(elapsed)) {
            assert!(m.timestamp <= start + Duration::from_secs(elapsed));
            got.push(m.message);
        }
    }
    assert_eq!(got, vec!["1", "2", "3", "4"]);
    assert_eq!(s.pending(), 0);
}
