use event_feed::{
    AccountId, Config, EligibilityError, Error, Event, IsAuthorizedAccount, Pallet,
};

const PERIOD: u64 = 3600;

fn kamisama() -> AccountId {
    AccountId::new([7u8; 32])
}

fn spammer() -> AccountId {
    AccountId::new([0u8; 32])
}

fn new_feed() -> Pallet {
    Pallet::new(Config { period: PERIOD, authorized_oracle_account: kamisama() })
}

fn front_data(feed: &Pallet) -> Vec<u8> {
    feed.front().unwrap().data().clone()
}

fn back_data(feed: &Pallet) -> Vec<u8> {
    feed.back().unwrap().data().clone()
}

#[test]
fn authorized_oracle_event_insertion_works() {
    let mut feed = new_feed();
    let data = "moshimoshi".as_bytes().to_vec();
    assert!(feed.len() == 0);
    assert!(feed.add_new_event_data(&kamisama(), data, 0).is_ok());
    assert!(feed.len() > 0);
}

#[should_panic]
#[test]
fn unauthorized_oracle_does_not_work() {
    let mut feed = new_feed();
    let data = "moshimoshi".as_bytes().to_vec();
    assert!(feed.add_new_event_data(&spammer(), data, 0).is_ok());
    assert!(feed.len() == 0);
}

#[test]
fn older_event_date_removed() {
    let mut feed = new_feed();
    let mut now: u64 = 0;
    let data = "moshimoshi".as_bytes().to_vec();
    assert!(feed.add_new_event_data(&kamisama(), data.clone(), now).is_ok());
    assert_eq!(data, back_data(&feed));
    // five minutes later
    now += 5 * 60;
    let new_data = "gm fam!".as_bytes().to_vec();
    assert!(feed.add_new_event_data(&kamisama(), new_data.clone(), now).is_ok());
    assert_eq!(new_data, back_data(&feed));
    feed.on_finalize(now);
    assert_eq!(front_data(&feed), data);
    // fifty-six minutes later
    now += 56 * 60;
    feed.on_finalize(now);
    let newer_front = front_data(&feed);
    assert_ne!(data, newer_front);
    assert_eq!(newer_front, new_data);
    // five more minutes
    now += 5 * 60;
    feed.on_finalize(now);
    assert_eq!(feed.len(), 0);
}

#[test]
fn authorized_write_returns_notification() {
    let mut feed = new_feed();
    let r = feed.add_new_event_data(&kamisama(), b"moshimoshi".to_vec(), 42);
    assert_eq!(r, Ok(Event::NewEventAdded(b"moshimoshi".to_vec(), 42)));
    let front = feed.front().unwrap();
    assert_eq!(front.data(), &b"moshimoshi".to_vec());
    assert_eq!(front.inserted_at(), 42);
}

#[test]
fn unauthorized_write_is_refused_and_changes_nothing() {
    let mut feed = new_feed();
    assert!(feed.add_new_event_data(&kamisama(), b"first".to_vec(), 5).is_ok());
    let before = feed.len();
    let r = feed.add_new_event_data(&spammer(), b"moshimoshi".to_vec(), 10);
    assert_eq!(r, Err(Error::UnAuthorizedAccount));
    assert_eq!(feed.len(), before);
    assert_eq!(back_data(&feed), b"first".to_vec());
}

#[test]
fn unauthorized_identity_differing_in_one_byte() {
    let mut feed = new_feed();
    let mut bytes = [7u8; 32];
    bytes[31] = 8;
    let r = feed.add_new_event_data(&AccountId::new(bytes), b"x".to_vec(), 1);
    assert_eq!(r, Err(Error::UnAuthorizedAccount));
    assert_eq!(feed.len(), 0);
}

#[test]
fn gate_checks_identity() {
    let config = Config { period: PERIOD, authorized_oracle_account: kamisama() };
    assert_eq!(config.is_valid(&kamisama()), Ok(()));
    assert_eq!(config.is_valid(&spammer()), Err(EligibilityError::NotAllowed));
    assert!(kamisama() == kamisama());
    assert!(kamisama() != spammer());
    assert_eq!(kamisama().as_bytes(), &[7u8; 32]);
}

#[test]
fn writes_stay_in_time_order() {
    let mut feed = new_feed();
    for (i, t) in [0u64, 0, 10, 10, 500, 3600].iter().enumerate() {
        assert!(feed.add_new_event_data(&kamisama(), vec![i as u8], *t).is_ok());
    }
    assert_eq!(feed.len(), 6);
    for i in 1..feed.len() {
        let a = feed.get(i - 1).unwrap().inserted_at();
        let b = feed.get(i).unwrap().inserted_at();
        assert!(a <= b);
    }
    assert_eq!(feed.get(0).unwrap().data(), &vec![0u8]);
    assert_eq!(feed.get(5).unwrap().data(), &vec![5u8]);
    assert!(feed.get(6).is_none());
}

#[test]
fn record_kept_at_deadline_and_removed_one_second_later() {
    let mut feed = new_feed();
    assert!(feed.add_new_event_data(&kamisama(), b"a".to_vec(), 100).is_ok());
    feed.on_finalize(100 + PERIOD);
    assert_eq!(feed.len(), 1);
    feed.on_finalize(100 + PERIOD + 1);
    assert_eq!(feed.len(), 0);
}

#[test]
fn repeated_ticks_at_same_time_change_nothing() {
    let mut feed = new_feed();
    for t in [0u64, 100, 200, 5000] {
        assert!(feed.add_new_event_data(&kamisama(), vec![1, 2], t).is_ok());
    }
    feed.on_finalize(3750);
    assert_eq!(feed.len(), 2);
    assert_eq!(feed.front().unwrap().inserted_at(), 200);
    feed.on_finalize(3750);
    assert_eq!(feed.len(), 2);
    assert_eq!(feed.front().unwrap().inserted_at(), 200);
}

#[test]
fn one_tick_past_every_deadline_drains_feed() {
    let mut feed = new_feed();
    for t in 1..=10u64 {
        assert!(feed.add_new_event_data(&kamisama(), vec![t as u8], t * 60).is_ok());
    }
    assert_eq!(feed.len(), 10);
    feed.on_finalize(600 + PERIOD + 1);
    assert_eq!(feed.len(), 0);
    assert!(feed.front().is_none());
    assert!(feed.back().is_none());
}

#[test]
fn tick_on_empty_feed_is_noop() {
    let mut feed = new_feed();
    feed.on_finalize(0);
    feed.on_finalize(u64::MAX);
    assert_eq!(feed.len(), 0);
}

#[test]
fn no_overflow_near_largest_time() {
    let mut feed = Pallet::new(Config { period: u64::MAX, authorized_oracle_account: kamisama() });
    assert!(feed.add_new_event_data(&kamisama(), b"late".to_vec(), u64::MAX - 1).is_ok());
    feed.on_finalize(u64::MAX);
    assert_eq!(feed.len(), 1);
    assert_eq!(feed.config().period, u64::MAX);
}

#[test]
fn spec_scenario_two_posts() {
    let mut feed = new_feed();
    assert!(feed.add_new_event_data(&kamisama(), b"moshimoshi".to_vec(), 0).is_ok());
    assert!(feed.add_new_event_data(&kamisama(), b"gm fam!".to_vec(), 300).is_ok());
    feed.on_finalize(300);
    assert_eq!(feed.len(), 2);
    assert_eq!(front_data(&feed), b"moshimoshi".to_vec());
    feed.on_finalize(3660);
    assert_eq!(feed.len(), 1);
    assert_eq!(front_data(&feed), b"gm fam!".to_vec());
    feed.on_finalize(3960);
    assert_eq!(feed.len(), 0);
}

#[test]
fn record_expiry_check() {
    let info = event_feed::EventInfo::new(b"p".to_vec(), 10);
    assert!(!info.is_expired_at(10, 5));
    assert!(!info.is_expired_at(15, 5));
    assert!(info.is_expired_at(16, 5));
    assert!(!info.is_expired_at(3, 5));
}
