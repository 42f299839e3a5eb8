use hb::error::HbError;
use hb::store::DataStore;
use hb::timer::{next_tick, Tick, TIMER_TICKS};

#[test]
fn error_message_text() {
    assert_eq!(HbError.message(), "Error While Hbping this page.");
}

fn fails_with_io() -> Result<(), HbError> {
    let e = std::io::Error::new(std::io::ErrorKind::Other, "boom");
    Err(e)?;
    Ok(())
}

#[test]
fn io_error_becomes_hb_error() {
    assert!(matches!(fails_with_io(), Err(HbError)));
    let h: HbError = std::io::Error::new(std::io::ErrorKind::Other, "x").into();
    assert_eq!(h.message(), "Error While Hbping this page.");
}

#[test]
fn store_reads_back_writes() {
    let mut s: DataStore<u32> = DataStore::new();
    assert_eq!(s.len(), 0);
    assert_eq!(s.get(&"a".to_string()), None);
    s.insert("a".to_string(), 1);
    s.insert("b".to_string(), 2);
    assert_eq!(s.get(&"a".to_string()), Some(&1));
    assert_eq!(s.len(), 2);
    s.insert("a".to_string(), 3);
    assert_eq!(s.get(&"a".to_string()), Some(&3));
    assert_eq!(s.get(&"b".to_string()), Some(&2));
    assert_eq!(s.len(), 2);
}

#[test]
fn timer_posts_one_to_hundred() {
    let mut posted = 0;
    let mut values = Vec::new();
    loop {
        let (tick, n) = next_tick(posted, Some(42));
        match tick {
            Tick::Post { port, value } => {
                assert_eq!(port, 42);
                values.push(value);
                posted = n;
            }
            Tick::Stop => break,
        }
    }
    assert_eq!(values, (1..=TIMER_TICKS).collect::<Vec<i32>>());
    assert_eq!(posted, 100);
}

#[test]
fn timer_stops_without_port() {
    assert_eq!(next_tick(3, None), (Tick::Stop, 3));
    assert_eq!(next_tick(0, Some(9)), (Tick::Post { port: 9, value: 1 }, 1));
    assert_eq!(next_tick(100, Some(9)), (Tick::Stop, 100));
}
