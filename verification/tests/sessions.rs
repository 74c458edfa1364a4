use longport_candlesticks::bucket::{bucket_start, bucket_time, first_month, session_time};
use longport_candlesticks::find_session::{find_session, is_ascending, FindSessionResult};
use longport_candlesticks::market::{windows_accept, windows_aligned};
use longport_candlesticks::{
    Duration, LocalDateTime, Market, Period, Time, TradeSession, TradeSessionKind,
    TradeSessionType, UpdateFields, TRADE_SESSION_INTRADAY, TRADE_SESSION_OVERNIGHT,
    TRADE_SESSION_POST, TRADE_SESSION_PRE,
};

/// A session table from the lists of its first sessions; the other sessions
/// have no windows.
fn table(lists: Vec<Vec<TradeSession>>) -> [Vec<TradeSession>; 4] {
    let mut lists = lists.into_iter();
    [
        lists.next().unwrap_or_default(),
        lists.next().unwrap_or_default(),
        lists.next().unwrap_or_default(),
        lists.next().unwrap_or_default(),
    ]
}

fn hms(hour: u8, minute: u8, second: u8) -> Time {
    Time::from_hms(hour, minute, second).unwrap()
}

fn two_windows() -> Vec<TradeSession> {
    vec![
        TradeSession::new(hms(9, 30, 0), hms(12, 0, 0)),
        TradeSession::new(hms(13, 0, 0), hms(16, 0, 0))
            .with_inclusive()
            .with_timeout(Duration::seconds(10)),
    ]
}

#[test]
fn trade_session_builders() {
    let plain = TradeSession::new(hms(9, 30, 0), hms(16, 0, 0));
    assert_eq!(plain.start, hms(9, 30, 0));
    assert_eq!(plain.end, hms(16, 0, 0));
    assert!(!plain.inclusive);
    assert!(plain.timeout.is_zero());
    let graced = plain.with_timeout(Duration::seconds(10));
    assert_eq!(graced.timeout, Duration::seconds(10));
    assert_eq!(graced.start, plain.start);
    assert_eq!(graced.end, plain.end);
    assert!(!graced.inclusive);
    let inclusive = graced.with_inclusive();
    assert!(inclusive.inclusive);
    assert_eq!(inclusive.timeout, Duration::seconds(10));
    assert_eq!(inclusive.start, plain.start);
    assert_eq!(inclusive.end, plain.end);
}

#[test]
fn window_holds_its_start_and_only_an_inclusive_one_its_end() {
    let plain = TradeSession::new(hms(9, 30, 0), hms(16, 0, 0));
    assert!(!plain.contains(hms(9, 29, 59)));
    assert!(plain.contains(hms(9, 30, 0)));
    assert!(plain.contains(hms(15, 59, 59)));
    assert!(!plain.contains(hms(16, 0, 0)));
    assert!(plain.with_inclusive().contains(hms(16, 0, 0)));
    assert!(!plain.with_inclusive().contains(hms(16, 0, 1)));
    assert_eq!(plain.deadline(), hms(16, 0, 0));
    assert_eq!(plain.with_timeout(Duration::seconds(10)).deadline(), hms(16, 0, 10));
    assert_eq!(
        TradeSession::new(hms(20, 0, 0), hms(23, 59, 0))
            .with_timeout(Duration::minutes(2))
            .deadline(),
        hms(0, 1, 0)
    );
}

#[test]
fn window_accepts_late_ticks_until_the_deadline() {
    let graced = TradeSession::new(hms(9, 30, 0), hms(16, 0, 0)).with_timeout(Duration::seconds(10));
    assert!(!graced.accepts(hms(9, 29, 59)));
    assert!(graced.accepts(hms(9, 30, 0)));
    assert!(graced.accepts(hms(16, 0, 0)));
    assert!(graced.accepts(hms(16, 0, 9)));
    assert!(!graced.accepts(hms(16, 0, 10)));
    let plain = TradeSession::new(hms(9, 30, 0), hms(16, 0, 0));
    assert!(!plain.accepts(hms(16, 0, 0)));
    assert!(plain.with_inclusive().accepts(hms(16, 0, 0)));
    // A deadline past midnight gives no grace.
    let night =
        TradeSession::new(hms(20, 0, 0), hms(23, 59, 0)).with_timeout(Duration::minutes(2));
    assert!(night.accepts(hms(23, 58, 59)));
    assert!(!night.accepts(hms(23, 59, 30)));
    assert!(windows_accept(&two_windows(), hms(16, 0, 5)));
    assert!(!windows_accept(&two_windows(), hms(12, 0, 0)));
    assert!(!windows_accept(&vec![], hms(12, 0, 0)));
}

#[test]
fn find_session_locates_a_time_among_windows() {
    let windows = two_windows();
    assert_eq!(find_session(&windows, hms(0, 0, 0)), FindSessionResult::BeforeFirst);
    assert_eq!(find_session(&windows, hms(9, 29, 59)), FindSessionResult::BeforeFirst);
    assert_eq!(find_session(&windows, hms(9, 30, 0)), FindSessionResult::Between(0));
    assert_eq!(find_session(&windows, hms(11, 59, 59)), FindSessionResult::Between(0));
    assert_eq!(find_session(&windows, hms(12, 0, 0)), FindSessionResult::After(0));
    assert_eq!(find_session(&windows, hms(12, 59, 59)), FindSessionResult::After(0));
    assert_eq!(find_session(&windows, hms(13, 0, 0)), FindSessionResult::Between(1));
    assert_eq!(find_session(&windows, hms(16, 0, 0)), FindSessionResult::Between(1));
    assert_eq!(find_session(&windows, hms(16, 0, 1)), FindSessionResult::After(1));
    assert_eq!(find_session(&windows, hms(23, 59, 59)), FindSessionResult::After(1));
    assert_eq!(find_session(&vec![], hms(12, 0, 0)), FindSessionResult::BeforeFirst);
    let touching = vec![
        TradeSession::new(hms(9, 0, 0), hms(12, 0, 0)),
        TradeSession::new(hms(12, 0, 0), hms(15, 0, 0)),
    ];
    assert_eq!(find_session(&touching, hms(12, 0, 0)), FindSessionResult::Between(1));
}

#[test]
fn session_time_clamps_a_late_tick_to_the_close() {
    let windows = two_windows();
    assert_eq!(session_time(&windows, hms(9, 0, 0)), None);
    assert_eq!(session_time(&windows, hms(10, 0, 0)), Some((hms(10, 0, 0), 0)));
    assert_eq!(session_time(&windows, hms(12, 0, 0)), None);
    assert_eq!(session_time(&windows, hms(12, 30, 0)), None);
    assert_eq!(session_time(&windows, hms(16, 0, 0)), Some((hms(16, 0, 0), 1)));
    assert_eq!(session_time(&windows, hms(16, 0, 9)), Some((hms(16, 0, 0), 1)));
    assert_eq!(session_time(&windows, hms(16, 0, 10)), None);
    assert_eq!(session_time(&vec![], hms(16, 0, 10)), None);
}

#[test]
fn bucket_time_of_each_kind_of_period() {
    let open = hms(9, 30, 0);
    assert_eq!(bucket_time(Period::Min_1, open, hms(10, 7, 42)), hms(10, 7, 0));
    assert_eq!(
        bucket_time(Period::Min_1, open, Time::from_hms_nano(10, 7, 0, 1).unwrap()),
        hms(10, 7, 0)
    );
    assert_eq!(bucket_time(Period::Min_5, open, hms(9, 34, 59)), hms(9, 30, 0));
    assert_eq!(bucket_time(Period::Min_5, open, hms(9, 35, 0)), hms(9, 35, 0));
    assert_eq!(bucket_time(Period::Min_240, open, hms(15, 59, 59)), hms(13, 30, 0));
    assert_eq!(bucket_time(Period::Min_45, hms(13, 0, 0), hms(15, 59, 0)), hms(15, 15, 0));
    for period in [Period::Day, Period::Week, Period::Month, Period::Quarter, Period::Year] {
        assert_eq!(bucket_time(period, open, hms(15, 59, 59)), Time::midnight());
    }
    // A window that opens between two whole minutes keeps its seconds on the
    // grid, but not for bars of one minute.
    let odd = hms(9, 30, 30);
    assert_eq!(bucket_time(Period::Min_5, odd, hms(9, 35, 10)), hms(9, 35, 30));
    assert_eq!(bucket_time(Period::Min_5, odd, hms(9, 34, 59)), hms(9, 30, 30));
    assert_eq!(bucket_time(Period::Min_1, odd, hms(9, 35, 10)), hms(9, 35, 0));
    // A time before the open counts whole periods backwards from it.
    assert_eq!(bucket_time(Period::Min_5, open, hms(9, 29, 0)), hms(9, 30, 0));
    assert_eq!(bucket_time(Period::Min_5, open, hms(9, 25, 0)), hms(9, 25, 0));
    assert_eq!(bucket_time(Period::Min_5, open, hms(9, 21, 0)), hms(9, 25, 0));
    assert_eq!(bucket_time(Period::Min_60, open, hms(0, 0, 0)), hms(0, 30, 0));
}

#[test]
fn first_month_of_each_period() {
    for month in 1..=12u8 {
        assert_eq!(first_month(Period::Month, month), month);
        assert_eq!(first_month(Period::Quarter, month), (month - 1) / 3 * 3 + 1);
        assert_eq!(first_month(Period::Year, month), 1);
    }
}

fn julian(year: i32, month: u8, day: u8) -> i32 {
    time::Date::from_calendar_date(year, time::Month::try_from(month).unwrap(), day)
        .unwrap()
        .to_julian_day()
}

#[test]
fn bucket_start_on_the_wall_clock() {
    let open = hms(9, 30, 0);
    let reading = LocalDateTime::new(julian(2024, 8, 29), hms(10, 7, 42), 28_800).unwrap();
    let cases = [
        (Period::Min_1, julian(2024, 8, 29), hms(10, 7, 0)),
        (Period::Min_15, julian(2024, 8, 29), hms(10, 0, 0)),
        (Period::Day, julian(2024, 8, 29), Time::midnight()),
        (Period::Week, julian(2024, 8, 26), Time::midnight()),
        (Period::Month, julian(2024, 8, 1), Time::midnight()),
        (Period::Quarter, julian(2024, 7, 1), Time::midnight()),
        (Period::Year, julian(2024, 1, 1), Time::midnight()),
    ];
    for (period, day, time) in cases {
        let bucket = bucket_start(period, open, &reading).unwrap();
        assert_eq!(bucket.julian_day(), day, "{:?}", period);
        assert_eq!(bucket.time(), time, "{:?}", period);
        assert_eq!(bucket.offset(), 28_800);
        assert!(bucket.to_timestamp() <= reading.to_timestamp());
        assert_eq!(bucket_start(period, open, &bucket), Some(bucket), "{:?}", period);
    }
}

#[test]
fn bucket_start_at_the_edges_of_the_calendar() {
    let open = hms(9, 30, 0);
    // The calendar begins on a Monday, -9999-01-01.
    let first = LocalDateTime::new(julian(-9999, 1, 1), hms(10, 0, 0), 0).unwrap();
    for period in [Period::Day, Period::Week, Period::Month, Period::Quarter, Period::Year] {
        let bucket = bucket_start(period, open, &first).unwrap();
        assert_eq!(bucket.julian_day(), julian(-9999, 1, 1));
        assert_eq!(bucket.time(), Time::midnight());
    }
    let last = LocalDateTime::new(julian(9999, 12, 31), hms(10, 0, 0), 0).unwrap();
    assert_eq!(bucket_start(Period::Week, open, &last).unwrap().julian_day(), julian(9999, 12, 27));
    assert_eq!(bucket_start(Period::Month, open, &last).unwrap().julian_day(), julian(9999, 12, 1));
    assert_eq!(
        bucket_start(Period::Quarter, open, &last).unwrap().julian_day(),
        julian(9999, 10, 1)
    );
    assert_eq!(bucket_start(Period::Year, open, &last).unwrap().julian_day(), julian(9999, 1, 1));
    // Year zero and the years before it.
    let ancient = LocalDateTime::new(julian(0, 3, 1), hms(10, 0, 0), 0).unwrap();
    assert_eq!(bucket_start(Period::Year, open, &ancient).unwrap().julian_day(), julian(0, 1, 1));
    assert_eq!(
        bucket_start(Period::Week, open, &ancient).unwrap().julian_day(),
        julian(0, 2, 28)
    );
    let older = LocalDateTime::new(julian(-1, 12, 31), hms(10, 0, 0), 0).unwrap();
    assert_eq!(
        bucket_start(Period::Quarter, open, &older).unwrap().julian_day(),
        julian(-1, 10, 1)
    );
}

#[test]
fn period_minutes() {
    let minutes = [
        (Period::Min_1, 1),
        (Period::Min_2, 2),
        (Period::Min_3, 3),
        (Period::Min_5, 5),
        (Period::Min_10, 10),
        (Period::Min_15, 15),
        (Period::Min_20, 20),
        (Period::Min_30, 30),
        (Period::Min_45, 45),
        (Period::Min_60, 60),
        (Period::Min_120, 120),
        (Period::Min_180, 180),
        (Period::Min_240, 240),
    ];
    for (period, n) in minutes {
        assert!(period.is_minute());
        assert_eq!(period.minutes(), Some(n));
    }
    for period in [Period::Day, Period::Week, Period::Month, Period::Quarter, Period::Year] {
        assert!(!period.is_minute());
        assert_eq!(period.minutes(), None);
    }
}

#[test]
fn update_fields_are_flags() {
    assert_eq!(UpdateFields::empty(), UpdateFields::EMPTY);
    assert_eq!(UpdateFields::all(), UpdateFields::ALL);
    assert_eq!(UpdateFields::EMPTY.bits(), 0);
    assert_eq!(UpdateFields::PRICE.bits(), 1);
    assert_eq!(UpdateFields::VOLUME.bits(), 2);
    assert_eq!(UpdateFields::ALL.bits(), 3);
    for fields in [UpdateFields::EMPTY, UpdateFields::PRICE, UpdateFields::VOLUME, UpdateFields::ALL]
    {
        assert_eq!(UpdateFields::from_bits(fields.bits()), Some(fields));
        assert!(fields.contains(UpdateFields::EMPTY));
        assert!(UpdateFields::ALL.contains(fields));
        assert!(fields.contains(fields));
        assert_eq!(fields.union(UpdateFields::EMPTY), fields);
        assert_eq!(fields.union(UpdateFields::ALL), UpdateFields::ALL);
    }
    assert_eq!(UpdateFields::from_bits(4), None);
    assert_eq!(UpdateFields::from_bits(u32::MAX), None);
    assert!(!UpdateFields::PRICE.contains(UpdateFields::VOLUME));
    assert!(!UpdateFields::VOLUME.contains(UpdateFields::PRICE));
    assert!(!UpdateFields::PRICE.contains(UpdateFields::ALL));
    assert!(!UpdateFields::EMPTY.contains(UpdateFields::PRICE));
    assert_eq!(UpdateFields::PRICE.union(UpdateFields::VOLUME), UpdateFields::ALL);
    assert_eq!(UpdateFields::PRICE.union(UpdateFields::PRICE), UpdateFields::PRICE);
}

#[test]
fn session_kinds_have_names_and_indices() {
    let kinds = [
        (TRADE_SESSION_INTRADAY, 0, "intraday"),
        (TRADE_SESSION_PRE, 1, "pre"),
        (TRADE_SESSION_POST, 2, "post"),
        (TRADE_SESSION_OVERNIGHT, 3, "overnight"),
    ];
    for (kind, index, name) in kinds {
        assert_eq!(kind.index(), index);
        assert_eq!(TradeSessionKind::from_index(index), Some(kind));
        assert_eq!(kind.kind(), kind);
        assert_eq!(kind.as_str(), name);
        assert_eq!(kind.is_intraday(), index == 0);
    }
    assert_eq!(TradeSessionKind::from_index(4), None);
    assert_eq!(TradeSessionKind::from_index(usize::MAX), None);
}

fn market() -> Market {
    Market {
        timezone: "Asia/Hong_Kong",
        trade_sessions: table(vec![two_windows(), vec![TradeSession::new(hms(9, 0, 0), hms(9, 30, 0))]]),
        half_trade_sessions: table(vec![vec![TradeSession::new(hms(9, 30, 0), hms(12, 0, 0))]]),
        lot_size: 1,
    }
}

#[test]
fn market_hands_out_the_windows_of_a_session() {
    let market = market();
    assert_eq!(market.windows(TRADE_SESSION_INTRADAY, false), &two_windows());
    assert_eq!(
        market.windows(TRADE_SESSION_PRE, false),
        &vec![TradeSession::new(hms(9, 0, 0), hms(9, 30, 0))]
    );
    assert!(market.windows(TRADE_SESSION_POST, false).is_empty());
    assert!(market.windows(TRADE_SESSION_OVERNIGHT, false).is_empty());
    assert_eq!(
        market.windows(TRADE_SESSION_INTRADAY, true),
        &vec![TradeSession::new(hms(9, 30, 0), hms(12, 0, 0))]
    );
    assert!(market.windows(TRADE_SESSION_PRE, true).is_empty());
}

#[test]
fn market_classifies_a_time_of_day() {
    let market = market();
    assert!(market.is_open(TRADE_SESSION_INTRADAY, false, hms(14, 0, 0)));
    assert!(!market.is_open(TRADE_SESSION_INTRADAY, true, hms(14, 0, 0)));
    assert!(!market.is_open(TRADE_SESSION_POST, false, hms(14, 0, 0)));
    assert_eq!(market.session_at(false, hms(9, 15, 0)), Some(TRADE_SESSION_PRE));
    assert_eq!(market.session_at(true, hms(9, 15, 0)), None);
    assert_eq!(market.session_at(false, hms(9, 30, 0)), Some(TRADE_SESSION_INTRADAY));
    assert_eq!(market.session_at(false, hms(12, 30, 0)), None);
    assert_eq!(market.session_at(false, hms(16, 0, 9)), Some(TRADE_SESSION_INTRADAY));
    assert_eq!(market.session_at(false, hms(16, 0, 10)), None);
}

#[test]
fn market_buckets_a_wall_clock_reading() {
    let market = market();
    let day = julian(2024, 1, 2);
    let reading = LocalDateTime::new(day, hms(14, 7, 0), 28_800).unwrap();
    let bucket = market
        .local_candlestick_time(TRADE_SESSION_INTRADAY, false, Period::Min_30, &reading)
        .unwrap();
    assert_eq!(bucket.time(), hms(14, 0, 0));
    assert_eq!(bucket.julian_day(), day);
    assert_eq!(bucket.offset(), 28_800);
    assert_eq!(
        market.local_candlestick_time(TRADE_SESSION_INTRADAY, true, Period::Min_30, &reading),
        None
    );
    assert_eq!(
        market.local_candlestick_time(TRADE_SESSION_PRE, false, Period::Min_30, &reading),
        None
    );
    assert_eq!(
        market.local_candlestick_time(TRADE_SESSION_POST, false, Period::Min_30, &reading),
        None
    );
    let late = LocalDateTime::new(day, hms(16, 0, 3), 28_800).unwrap();
    let last = market
        .local_candlestick_time(TRADE_SESSION_INTRADAY, false, Period::Min_60, &late)
        .unwrap();
    assert_eq!(last.time(), hms(16, 0, 0));
    let early = LocalDateTime::new(day, hms(9, 10, 0), 28_800).unwrap();
    assert_eq!(
        market.local_candlestick_time(TRADE_SESSION_PRE, false, Period::Day, &early),
        None
    );
    assert_eq!(
        market
            .local_candlestick_time(TRADE_SESSION_PRE, false, Period::Min_10, &early)
            .map(|b| b.time()),
        Some(hms(9, 10, 0))
    );
}

#[test]
fn windows_in_order_are_told_from_windows_out_of_order() {
    assert!(is_ascending(&vec![]));
    assert!(is_ascending(&vec![TradeSession::new(hms(9, 30, 0), hms(12, 0, 0))]));
    assert!(is_ascending(&two_windows()));
    let touching = vec![
        TradeSession::new(hms(9, 0, 0), hms(12, 0, 0)),
        TradeSession::new(hms(12, 0, 0), hms(15, 0, 0)),
    ];
    assert!(is_ascending(&touching));
    let touching_inclusive = vec![
        TradeSession::new(hms(9, 0, 0), hms(12, 0, 0)).with_inclusive(),
        TradeSession::new(hms(12, 0, 0), hms(15, 0, 0)),
    ];
    assert!(!is_ascending(&touching_inclusive));
    let overlapping = vec![
        TradeSession::new(hms(9, 0, 0), hms(12, 0, 1)),
        TradeSession::new(hms(12, 0, 0), hms(15, 0, 0)),
    ];
    assert!(!is_ascending(&overlapping));
    let reversed = vec![
        TradeSession::new(hms(13, 0, 0), hms(16, 0, 0)),
        TradeSession::new(hms(9, 30, 0), hms(12, 0, 0)),
    ];
    assert!(!is_ascending(&reversed));
    let late_disorder = vec![
        TradeSession::new(hms(1, 0, 0), hms(2, 0, 0)),
        TradeSession::new(hms(3, 0, 0), hms(4, 0, 0)),
        TradeSession::new(hms(5, 0, 0), hms(7, 0, 0)),
        TradeSession::new(hms(6, 0, 0), hms(8, 0, 0)),
    ];
    assert!(!is_ascending(&late_disorder));
}

#[test]
fn aligned_windows_open_on_a_whole_minute() {
    assert!(TradeSession::new(hms(9, 30, 0), hms(12, 0, 0)).is_aligned());
    assert!(TradeSession::new(hms(9, 30, 0), hms(9, 30, 0)).is_aligned());
    assert!(TradeSession::new(hms(0, 0, 0), hms(23, 59, 59)).is_aligned());
    assert!(!TradeSession::new(hms(9, 30, 30), hms(12, 0, 0)).is_aligned());
    assert!(!TradeSession::new(
        Time::from_hms_nano(9, 30, 0, 1).unwrap(),
        hms(12, 0, 0)
    )
    .is_aligned());
    assert!(!TradeSession::new(hms(12, 0, 0), hms(9, 30, 0)).is_aligned());
    assert!(windows_aligned(&two_windows()));
    assert!(windows_aligned(&vec![]));
    assert!(!windows_aligned(&vec![
        TradeSession::new(hms(9, 30, 0), hms(12, 0, 0)),
        TradeSession::new(hms(13, 0, 1), hms(16, 0, 0)),
    ]));
}

#[test]
fn market_tables_are_validated() {
    let good = market();
    assert!(good.is_well_formed());
    let mut odd_start = market();
    odd_start.half_trade_sessions[3] = vec![TradeSession::new(hms(20, 0, 30), hms(23, 0, 0))];
    assert!(!odd_start.is_well_formed());
    let mut disorder = market();
    disorder.trade_sessions[2] = vec![
        TradeSession::new(hms(16, 0, 0), hms(18, 0, 0)),
        TradeSession::new(hms(17, 0, 0), hms(20, 0, 0)),
    ];
    assert!(!disorder.is_well_formed());
    let mut backwards = market();
    backwards.trade_sessions[0] = vec![TradeSession::new(hms(16, 0, 0), hms(9, 30, 0))];
    assert!(!backwards.is_well_formed());
    let empty = Market {
        timezone: "UTC",
        trade_sessions: table(vec![]),
        half_trade_sessions: table(vec![]),
        lot_size: 1,
    };
    assert!(empty.is_well_formed());
}
