use postkeeper::error::{Error, Kind};
use postkeeper::maps::address_map::AddressMap;
use postkeeper::maps::map_parser::MapParser;
use postkeeper::maps::{
    allow_last_updated, block_last_updated, interval_elapsed, is_allowed, is_blocked,
    load_allow_map, load_block_map, load_maps_if_changed, should_update, MapStore, Probe,
};
use postkeeper::time::Timestamp;
use std::ops::{Add, Sub};
use std::time::{Duration, SystemTime, UNIX_EPOCH};

const ALLOW_MAP: &str = "\
# allow list
teresa@example.com gay@example.com candice@example.net cornelius@example.net jarret@example.org zachariah@example.org wilfred@example.com
    # this is allowed comment
    hildegard@example.com taurean@example.org
haskell@example.com yvette@example.net
    cloyd@example.com

alayna@example.com clara@example.net stephan@example.net
    jordan@example.net
    juston@example.com
vida@example.net cindy@example.org
    eusebio@example.com
";

const BLOCK_MAP: &str = "\
reanna@example.com kale@example.org ansel@example.com
    maximillia@example.net
# the last map of the file
bertrand@example.org summer@example.com
    griffin@example.net
";

fn timestamp(t: SystemTime) -> Timestamp {
    Timestamp::from_nanos(t.duration_since(UNIX_EPOCH).unwrap().as_nanos() as i128)
}

fn parse(content: &str) -> AddressMap {
    MapParser::from_map_file(content.as_bytes()).into_map()
}

fn store(content: &str, last_updated: i64) -> MapStore {
    let mut store = MapStore::new(Timestamp::from_secs(last_updated));
    assert_eq!(store.load(Ok(parse(content))), Ok(()));
    store
}

fn load_maps() -> (MapStore, MapStore) {
    let mut allow = MapStore::new(Timestamp::from_secs(0));
    let mut block = MapStore::new(Timestamp::from_secs(0));
    assert_eq!(load_allow_map(&mut allow, Ok(parse(ALLOW_MAP))), Ok(()));
    assert_eq!(load_block_map(&mut block, Ok(parse(BLOCK_MAP))), Ok(()));
    (allow, block)
}

fn probe(checked_at: i64, modified: Option<i64>, content: Option<&str>, loaded_at: i64) -> Probe {
    Probe {
        checked_at: Timestamp::from_secs(checked_at),
        modified: modified.map(Timestamp::from_secs),
        map: content.map(parse),
        loaded_at: Timestamp::from_secs(loaded_at),
    }
}

#[test]
fn test_allow_map() {
    let (maps, _) = load_maps();
    // first map of the file
    assert!(is_allowed(&maps, "teresa@example.com", "taurean@example.org"));
    assert!(is_allowed(&maps, "haskell@example.com", "yvette@example.net"));
    assert!(is_allowed(&maps, "haskell@example.com", "cloyd@example.com"));
    assert!(is_allowed(&maps, "vida@example.net", "cindy@example.org"));

    // last map of the file
    assert!(is_allowed(&maps, "vida@example.net", "eusebio@example.com"));

    // this data doesn't exist
    assert!(!is_allowed(&maps, "elmo@example.net", "cloyd@example.com"));
    assert!(!is_allowed(&maps, "elmo33@example.net", "test@example.com"));
    assert!(!is_allowed(&maps, "pat@example.net", "cloyd@example.com"));
    assert!(!is_allowed(&maps, "milter@example.net", "example@example.com"));
    assert!(!is_allowed(&maps, "hello@example.net", "hi@example.com"));
}

#[test]
fn test_block_map() {
    let (_, maps) = load_maps();
    // first map first and last match
    assert!(is_blocked(&maps, "reanna@example.com", "kale@example.org"));
    assert!(is_blocked(&maps, "reanna@example.com", "maximillia@example.net"));

    // last map first and last match
    assert!(is_blocked(&maps, "bertrand@example.org", "summer@example.com"));
    assert!(is_blocked(&maps, "bertrand@example.org", "griffin@example.net"));
}

#[test]
fn test_should_update() {
    let now = SystemTime::now();
    let last_updated = timestamp(now.sub(Duration::from_secs(10)));
    // the file has just been written
    let modified = Some(timestamp(now));
    let now = timestamp(now);

    // enough time has passed should update
    assert!(should_update(now, last_updated, 0, modified));
    assert!(should_update(now, last_updated, 3, modified));
    assert!(should_update(now, last_updated, 8, modified));
    assert!(should_update(now, last_updated, 10, modified));

    // still need to wait, shouldn't update
    assert!(!should_update(now, last_updated, 11, modified));
    assert!(!should_update(now, last_updated, 12, modified));
    assert!(!should_update(now, last_updated, 13, modified));
    assert!(!should_update(now, last_updated, 14, modified));
}

#[test]
fn test_should_update_fail() {
    let now = SystemTime::now();
    let last_updated = timestamp(now.sub(Duration::from_secs(10)));
    let now = timestamp(now);
    // the file does not exist: its metadata cannot be read
    let modified = None;

    // enough time has passed but file does not exist, shouldn't update
    assert!(!should_update(now, last_updated, 0, modified));
    assert!(!should_update(now, last_updated, 3, modified));
    assert!(!should_update(now, last_updated, 8, modified));
    assert!(!should_update(now, last_updated, 10, modified));
    assert!(!should_update(now, last_updated, 11, modified));
    assert!(!should_update(now, last_updated, 12, modified));
    assert!(!should_update(now, last_updated, 13, modified));
    assert!(!should_update(now, last_updated, 14, modified));
}

#[test]
fn test_should_update_fail_skewed_time() {
    let now = SystemTime::now();
    // skew time with last updated in future
    let last_updated = timestamp(now.add(Duration::from_secs(10)));
    let modified = Some(timestamp(now));
    let now = timestamp(now);

    // last updated time is skewed, shouldn't update
    assert!(!should_update(now, last_updated, 0, modified));
    assert!(!should_update(now, last_updated, 3, modified));
    assert!(!should_update(now, last_updated, 8, modified));
    assert!(!should_update(now, last_updated, 10, modified));
    assert!(!should_update(now, last_updated, 11, modified));
    assert!(!should_update(now, last_updated, 12, modified));
    assert!(!should_update(now, last_updated, 13, modified));
    assert!(!should_update(now, last_updated, 14, modified));
}

#[test]
fn interval_is_counted_in_nanoseconds() {
    let last = Timestamp::from_nanos(5_000_000_000);
    assert!(!interval_elapsed(Timestamp::from_nanos(6_999_999_999), last, 2));
    assert!(interval_elapsed(Timestamp::from_nanos(7_000_000_000), last, 2));
    assert!(interval_elapsed(last, last, 0));
    assert!(!interval_elapsed(Timestamp::from_nanos(4_999_999_999), last, 0));
}

#[test]
fn interval_with_times_far_apart() {
    let early = Timestamp::from_nanos(i128::MIN);
    let late = Timestamp::from_nanos(i128::MAX);
    assert!(interval_elapsed(late, early, u64::MAX));
    assert!(!interval_elapsed(early, late, 0));
    assert!(should_update(late, early, u64::MAX, Some(late)));
}

#[test]
fn should_update_needs_a_newer_file() {
    let last = Timestamp::from_secs(100);
    let now = Timestamp::from_secs(200);
    assert!(should_update(now, last, 60, Some(Timestamp::from_secs(101))));
    assert!(!should_update(now, last, 60, Some(Timestamp::from_secs(100))));
    assert!(!should_update(now, last, 60, Some(Timestamp::from_secs(99))));
    assert!(!should_update(now, last, 60, None));
    // the interval has not passed, however new the file is
    assert!(!should_update(now, last, 101, Some(Timestamp::from_secs(150))));
}

#[test]
fn new_stores_are_empty() {
    let start = Timestamp::from_secs(1_000);
    let allow = MapStore::new(start);
    let block = MapStore::new(start);
    assert_eq!(allow.len(), 0);
    assert_eq!(block.len(), 0);
    assert_eq!(allow_last_updated(&allow), start);
    assert_eq!(block_last_updated(&block), start);
    assert_eq!(allow.last_updated(), start);
    assert!(!is_allowed(&allow, "teresa@example.com", "taurean@example.org"));
    assert!(!is_blocked(&block, "reanna@example.com", "kale@example.org"));
}

#[test]
fn load_replaces_the_whole_map() {
    let (mut allow, block) = load_maps();
    assert_eq!(allow.len(), 4);
    assert_eq!(load_allow_map(&mut allow, Ok(parse("pat@example.net cloyd@example.com\n"))), Ok(()));
    assert_eq!(allow.len(), 1);
    assert!(is_allowed(&allow, "pat@example.net", "cloyd@example.com"));
    assert!(!is_allowed(&allow, "teresa@example.com", "taurean@example.org"));
    // the other map is left alone
    assert_eq!(block.len(), 2);
    assert!(is_blocked(&block, "reanna@example.com", "kale@example.org"));
}

#[test]
fn load_leaves_the_time_of_the_last_reload() {
    let mut block = MapStore::new(Timestamp::from_secs(77));
    assert_eq!(load_block_map(&mut block, Ok(parse(BLOCK_MAP))), Ok(()));
    assert_eq!(block_last_updated(&block), Timestamp::from_secs(77));
    assert_eq!(load_block_map(&mut block, Err(Error::default())), Err(Error::default()));
    assert_eq!(block_last_updated(&block), Timestamp::from_secs(77));
}

#[test]
fn failed_load_keeps_the_previous_map() {
    let (mut allow, mut block) = load_maps();
    let failure = Error::config_err("File not found");
    assert_eq!(load_allow_map(&mut allow, Err(failure.clone())), Err(failure.clone()));
    assert_eq!(load_block_map(&mut block, Err(failure.clone())), Err(failure));
    assert!(is_allowed(&allow, "teresa@example.com", "taurean@example.org"));
    assert!(is_blocked(&block, "reanna@example.com", "kale@example.org"));
    let err = load_allow_map(&mut allow, Err(Error::with_msg(Kind::Internal, "broken"))).unwrap_err();
    assert_eq!(err.kind(), Kind::Internal);
    assert_eq!(allow.len(), 4);
}

#[test]
fn lookup_folds_the_key_and_ignores_the_case_of_the_candidate() {
    let (allow, block) = load_maps();
    assert!(is_allowed(&allow, "TERESA@Example.COM", "taurean@example.org"));
    assert!(is_allowed(&allow, "teresa@example.com", "Taurean@EXAMPLE.org"));
    assert!(is_blocked(&block, "Bertrand@Example.Org", "GRIFFIN@example.net"));
    assert!(allow.lookup("Vida@example.net", "CINDY@EXAMPLE.ORG"));
    assert!(!block.lookup("Vida@example.net", "CINDY@EXAMPLE.ORG"));
    // only ASCII letters are folded in the candidate
    let store = store("k@x.com \u{e9}cole@x.com", 0);
    assert!(store.lookup("k@x.com", "\u{e9}COLE@x.com"));
    assert!(!store.lookup("k@x.com", "\u{c9}cole@x.com"));
    // a value is not a prefix match
    assert!(!store.lookup("k@x.com", "\u{e9}cole@x.co"));
}

#[test]
fn reload_when_due() {
    let (allow, block) = load_maps();
    let allow_probe = probe(100, Some(50), Some("pat@example.net cloyd@example.com\n"), 101);
    let block_probe = probe(100, Some(50), Some("pat@example.net hi@example.com\n"), 102);
    let next = load_maps_if_changed(&allow, &block, 60, allow_probe, block_probe);
    let allow = next.allow.unwrap();
    let block = next.block.unwrap();
    assert!(is_allowed(&allow, "pat@example.net", "cloyd@example.com"));
    assert!(!is_allowed(&allow, "teresa@example.com", "taurean@example.org"));
    assert!(is_blocked(&block, "pat@example.net", "hi@example.com"));
    assert!(!is_blocked(&block, "reanna@example.com", "kale@example.org"));
    assert_eq!(allow_last_updated(&allow), Timestamp::from_secs(101));
    assert_eq!(block_last_updated(&block), Timestamp::from_secs(102));
}

#[test]
fn each_map_reloads_on_its_own() {
    let (allow, block) = load_maps();
    let allow_probe = probe(100, Some(50), Some("pat@example.net cloyd@example.com\n"), 101);
    // the block map file was not modified
    let block_probe = probe(100, Some(0), Some("pat@example.net hi@example.com\n"), 102);
    let next = load_maps_if_changed(&allow, &block, 60, allow_probe, block_probe);
    assert!(next.block.is_none());
    let allow = next.allow.unwrap();
    assert!(is_allowed(&allow, "pat@example.net", "cloyd@example.com"));
    assert_eq!(allow_last_updated(&allow), Timestamp::from_secs(101));
}

#[test]
fn no_reload_before_the_interval_has_passed() {
    let store = MapStore::new(Timestamp::from_secs(100));
    // whatever the modification time of the file
    for modified in [None, Some(0), Some(100), Some(130), Some(1_000_000)] {
        let p = probe(159, modified, Some("a@x.com b@y.com"), 160);
        assert!(store.reload_if_due(60, p).is_none());
    }
    let p = probe(160, Some(130), Some("a@x.com b@y.com"), 161);
    let next = store.reload_if_due(60, p).unwrap();
    assert_eq!(next.len(), 1);
    assert!(next.lookup("a@x.com", "b@y.com"));
    assert_eq!(next.last_updated(), Timestamp::from_secs(161));
    // the store that was asked is as it was
    assert_eq!(store.len(), 0);
    assert_eq!(store.last_updated(), Timestamp::from_secs(100));
}

#[test]
fn no_reload_of_a_file_that_was_not_modified() {
    let store = MapStore::new(Timestamp::from_secs(100));
    for modified in [Some(100), Some(99), Some(0), Some(-5)] {
        let p = probe(1_000_000, modified, Some("a@x.com b@y.com"), 1_000_001);
        assert!(store.reload_if_due(60, p).is_none());
    }
}

#[test]
fn no_reload_under_clock_skew() {
    // the last reload lies in the future
    let store = MapStore::new(Timestamp::from_secs(500));
    for interval in [0, 1, 60, u64::MAX] {
        let p = probe(499, Some(600), Some("a@x.com b@y.com"), 499);
        assert!(store.reload_if_due(interval, p).is_none());
    }
}

#[test]
fn no_reload_without_metadata_or_content() {
    let store = store("a@x.com b@y.com", 100);
    // the metadata could not be read
    assert!(store.reload_if_due(60, probe(1_000, None, Some("c@x.com d@y.com"), 1_001)).is_none());
    // the file could not be read
    assert!(store.reload_if_due(60, probe(1_000, Some(900), None, 1_001)).is_none());
    // a broken file is tried again at each check once the interval has passed
    assert!(store.reload_if_due(60, probe(1_001, Some(900), None, 1_002)).is_none());
    let next = store
        .reload_if_due(60, probe(1_002, Some(900), Some("c@x.com d@y.com"), 1_003))
        .unwrap();
    assert!(!next.lookup("a@x.com", "b@y.com"));
    assert!(next.lookup("c@x.com", "d@y.com"));
    assert_eq!(next.last_updated(), Timestamp::from_secs(1_003));
}

#[test]
fn timestamps() {
    assert_eq!(Timestamp::from_secs(2).as_nanos(), 2_000_000_000);
    assert_eq!(Timestamp::from_secs(-1).as_nanos(), -1_000_000_000);
    assert_eq!(Timestamp::from_secs(i64::MIN).as_nanos(), i64::MIN as i128 * 1_000_000_000);
    assert_eq!(Timestamp::from_nanos(17).as_nanos(), 17);
    assert!(Timestamp::from_nanos(18).is_after(Timestamp::from_nanos(17)));
    assert!(!Timestamp::from_nanos(17).is_after(Timestamp::from_nanos(17)));
    assert!(Timestamp::from_secs(3).is_at_least_secs_after(Timestamp::from_secs(1), 2));
    assert!(!Timestamp::from_secs(3).is_at_least_secs_after(Timestamp::from_secs(1), 3));
}
