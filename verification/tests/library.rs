use ptera_api::bll::{classify_match, rate_calculation, through_f64, MatchClass, RateDeltas};
use ptera_api::decimal::{format_u64, parse_u64};
use ptera_api::entity::{AttrValue, Item, ItemError, RateInfo, RateInfoList};
use ptera_api::infrastructure::{check_rate_update, rate_item, rate_key, rate_updates, UpdateError};
use ptera_api::routing::{route, route_request, strip_stage, HttpMethod, RegexFailure, Route};
use ptera_api::service_handler::{
    get_rate_reply, match_winner, new_player_rate_info, settle_match, DEFAULT_RATE,
};
use ptera_api::Config;

fn info(id: &str, name: &str, rate: u64, is_winner: Option<bool>) -> RateInfo {
    RateInfo { user_id: id.to_string(), user_name: name.to_string(), rate, is_winner }
}

fn string_of(v: Option<&AttrValue>) -> Option<(char, String)> {
    match v {
        Some(AttrValue::S(s)) => Some(('S', s.clone())),
        Some(AttrValue::N(n)) => Some(('N', n.clone())),
        Some(AttrValue::Other) => Some(('O', String::new())),
        None => None,
    }
}

#[test]
fn parse_accepts_plain_and_plus_signed_digits() {
    assert_eq!(parse_u64("0"), Some(0));
    assert_eq!(parse_u64("550"), Some(550));
    assert_eq!(parse_u64("+42"), Some(42));
    assert_eq!(parse_u64("007"), Some(7));
    assert_eq!(parse_u64("18446744073709551615"), Some(u64::MAX));
}

#[test]
fn parse_refuses_what_str_parse_refuses() {
    for s in ["", "+", "-", "-5", "12a", " 1", "1 ", "1_000", "18446744073709551616", "++1", "٣"] {
        assert_eq!(parse_u64(s), None, "{:?}", s);
        assert_eq!(parse_u64(s), s.parse::<u64>().ok(), "{:?}", s);
    }
}

#[test]
fn format_writes_decimal_like_to_string() {
    for n in [0u64, 7, 10, 99, 550, 1_000_000, u64::MAX] {
        assert_eq!(format_u64(n), n.to_string());
        assert_eq!(parse_u64(&format_u64(n)), Some(n));
    }
}

#[test]
fn item_insert_replaces_and_get_finds() {
    let mut item = Item::new();
    assert!(item.get("rate").is_none());
    item.insert("rate".to_string(), AttrValue::N("5".to_string()));
    item.insert("user_id".to_string(), AttrValue::S("a".to_string()));
    item.insert("rate".to_string(), AttrValue::N("6".to_string()));
    assert_eq!(string_of(item.get("rate")), Some(('N', "6".to_string())));
    assert_eq!(string_of(item.get("user_id")), Some(('S', "a".to_string())));
    assert_eq!(item.entries().len(), 2);
}

fn stored(id: Option<AttrValue>, name: Option<AttrValue>, rate: Option<AttrValue>) -> Item {
    let mut item = Item::new();
    if let Some(v) = id {
        item.insert("user_id".to_string(), v);
    }
    if let Some(v) = name {
        item.insert("user_name".to_string(), v);
    }
    if let Some(v) = rate {
        item.insert("rate".to_string(), v);
    }
    item
}

fn s(x: &str) -> Option<AttrValue> {
    Some(AttrValue::S(x.to_string()))
}

fn n(x: &str) -> Option<AttrValue> {
    Some(AttrValue::N(x.to_string()))
}

#[test]
fn try_from_reads_a_complete_record() {
    let r = RateInfo::try_from(&stored(s("u1"), s("kona"), n("4440"))).unwrap();
    assert_eq!(r.user_id, "u1");
    assert_eq!(r.user_name, "kona");
    assert_eq!(r.rate, 4440);
    assert_eq!(r.is_winner, None);
}

#[test]
fn try_from_reports_each_error() {
    let err = |i: Item| RateInfo::try_from(&i).err();
    assert_eq!(err(stored(None, s("kona"), n("1"))), Some(ItemError::MissingKey));
    assert_eq!(err(stored(s("u1"), None, n("1"))), Some(ItemError::MissingKey));
    assert_eq!(err(stored(s("u1"), s("kona"), None)), Some(ItemError::MissingKey));
    assert_eq!(err(stored(n("1"), s("kona"), n("1"))), Some(ItemError::UserIdNotString));
    assert_eq!(err(stored(s("u1"), Some(AttrValue::Other), n("1"))), Some(ItemError::UserNameNotString));
    assert_eq!(err(stored(s("u1"), s("kona"), s("1"))), Some(ItemError::RateNotNumber));
    assert_eq!(err(stored(s("u1"), s("kona"), n("1.5"))), Some(ItemError::RateUnreadable));
    // The id is checked before the name, the name before the rate.
    assert_eq!(err(stored(n("1"), n("2"), s("3"))), Some(ItemError::UserIdNotString));
}

#[test]
fn record_written_for_a_player_reads_back() {
    let p = info("u1", "kona", 4440, Some(true));
    let item = rate_item(&p);
    assert_eq!(string_of(item.get("user_id")), Some(('S', "u1".to_string())));
    assert_eq!(string_of(item.get("user_name")), Some(('S', "kona".to_string())));
    assert_eq!(string_of(item.get("rate")), Some(('N', "4440".to_string())));
    let back = RateInfo::try_from(&item).unwrap();
    assert_eq!((back.user_id.as_str(), back.user_name.as_str(), back.rate, back.is_winner), ("u1", "kona", 4440, None));
}

#[test]
fn key_names_the_player() {
    let (name, value) = rate_key("u9");
    assert_eq!(name, "user_id");
    assert_eq!(string_of(Some(&value)), Some(('S', "u9".to_string())));
}

#[test]
fn update_check_allows_moves_up_to_the_cap() {
    assert_eq!(check_rate_update(100, 150, 50), Ok(()));
    assert_eq!(check_rate_update(150, 100, 50), Ok(()));
    assert_eq!(
        check_rate_update(100, 151, 50),
        Err(UpdateError::RateDeltaTooLarge { current: 100, requested: 151, max_delta_rate: 50 })
    );
    assert_eq!(
        check_rate_update(151, 100, 50),
        Err(UpdateError::RateDeltaTooLarge { current: 151, requested: 100, max_delta_rate: 50 })
    );
}

#[test]
fn updates_set_name_then_rate() {
    let p = info("u1", "kona", 560, None);
    let ups = rate_updates(&p, 550, 50).unwrap();
    assert_eq!(ups.len(), 2);
    assert_eq!(ups[0].key_name, "user_id");
    assert_eq!(string_of(Some(&ups[0].key)), Some(('S', "u1".to_string())));
    assert_eq!(ups[0].expression, "SET user_name=:user_name");
    assert_eq!(ups[0].placeholder, ":user_name");
    assert_eq!(string_of(Some(&ups[0].value)), Some(('S', "kona".to_string())));
    assert_eq!(ups[1].expression, "SET rate=:rate");
    assert_eq!(ups[1].placeholder, ":rate");
    assert_eq!(ups[1].attribute, "rate");
    assert_eq!(string_of(Some(&ups[1].value)), Some(('N', "560".to_string())));
    assert!(matches!(
        rate_updates(&p, 400, 50),
        Err(UpdateError::RateDeltaTooLarge { current: 400, requested: 560, max_delta_rate: 50 })
    ));
}

#[test]
fn through_f64_matches_the_casts() {
    for x in [
        0u64,
        1,
        550,
        (1 << 53) - 1,
        1 << 53,
        (1 << 53) + 1,
        (1 << 53) + 2,
        (1 << 53) + 3,
        (1 << 54) + 2,
        (1 << 54) + 6,
        u64::MAX,
        u64::MAX - 1024,
        u64::MAX - 2048,
        12_345_678_901_234_567_891,
    ] {
        assert_eq!(through_f64(x), x as f64 as u64, "{}", x);
    }
    assert_eq!(through_f64((1 << 53) + 1), 1 << 53);
    assert_eq!(through_f64((1 << 53) + 3), (1 << 53) + 4);
}

#[test]
fn classify_compares_as_f64() {
    assert_eq!(classify_match(550, 400), MatchClass::FavoriteWon);
    assert_eq!(classify_match(400, 400), MatchClass::FavoriteWon);
    assert_eq!(classify_match(400, 550), MatchClass::UnderdogWon);
    // Two ratings that f64 cannot tell apart count as equal.
    assert_eq!(classify_match(1 << 53, (1 << 53) + 1), MatchClass::FavoriteWon);
}

#[test]
fn rate_calculation_caps_and_saturates() {
    let d = |gain, loss| RateDeltas { gain, loss };
    assert_eq!(rate_calculation(550, 400, d(58, 29), 100), (608, 371));
    assert_eq!(rate_calculation(550, 400, d(58, 40), 30), (580, 370));
    assert_eq!(rate_calculation(400, 10, d(5, 50), 100), (405, 0));
    assert_eq!(rate_calculation(u64::MAX, 10, d(5, 5), 100), (u64::MAX, 5));
    assert_eq!(rate_calculation(0, 0, d(0, 0), 0), (0, 0));
}

#[test]
fn routes_by_method_and_path() {
    assert_eq!(route(HttpMethod::Get, "/rate"), Route::GetRate);
    assert_eq!(route(HttpMethod::Post, "/rate"), Route::PostRate);
    assert_eq!(route(HttpMethod::Put, "/rate"), Route::PutRate);
    assert_eq!(route(HttpMethod::Delete, "/rate"), Route::DeleteRate);
    assert_eq!(route(HttpMethod::Other, "/rate"), Route::NotSupported);
    assert_eq!(route(HttpMethod::Post, "/rate/calculation"), Route::PostRateCalculation);
    assert_eq!(route(HttpMethod::Get, "/rate/calculation"), Route::NotSupported);
    assert_eq!(route(HttpMethod::Get, "/rates"), Route::NotSupported);
}

#[test]
fn stage_name_is_taken_off_the_path() {
    assert_eq!(strip_stage("/default/rate").as_deref(), Ok("/rate"));
    assert_eq!(strip_stage("/prod/rate/calculation").as_deref(), Ok("/rate/calculation"));
    assert_eq!(strip_stage("/rate").as_deref(), Ok("/rate"));
    assert_eq!(strip_stage("/a-b/rate").as_deref(), Ok("/a-b/rate"));
    assert_eq!(strip_stage("/st/ä/b").as_deref(), Ok("/ä/b"));
    assert_eq!(route_request(HttpMethod::Get, "/default/rate"), Ok(Route::GetRate));
    assert_eq!(route_request(HttpMethod::Post, "/dev/rate/calculation"), Ok(Route::PostRateCalculation));
    assert_eq!(route_request(HttpMethod::Get, "/default/other"), Ok(Route::NotSupported));
}

#[test]
fn stage_search_fails_on_a_huge_path() {
    let path = format!("/{}", "a".repeat(2_000_000));
    assert_eq!(strip_stage(&path), Err(RegexFailure::Search));
    assert_eq!(route_request(HttpMethod::Get, &path), Err(RegexFailure::Search));
}

#[test]
fn read_reply_is_found_or_empty() {
    let (status, body) = get_rate_reply(Some(info("u1", "kona", 7, None)));
    assert_eq!((status, body.user_id.as_str(), body.rate), (200, "u1", 7));
    let (status, body) = get_rate_reply(None);
    assert_eq!((status, body.user_id.as_str(), body.user_name.as_str(), body.rate, body.is_winner), (204, "", "", 0, None));
}

#[test]
fn new_player_starts_at_default_rate() {
    let p = new_player_rate_info(info("u1", "kona", 999, Some(false)));
    assert_eq!(DEFAULT_RATE, 0);
    assert_eq!((p.user_id.as_str(), p.user_name.as_str(), p.rate, p.is_winner), ("u1", "kona", 0, Some(false)));
}

#[test]
fn winner_is_read_from_the_marks() {
    let list = |a, b| RateInfoList { rate_info_list: vec![info("a", "A", 550, a), info("b", "B", 400, b)] };
    assert_eq!(match_winner(&list(Some(true), Some(false))), Some(0));
    assert_eq!(match_winner(&list(Some(true), Some(true))), Some(0));
    assert_eq!(match_winner(&list(None, Some(true))), Some(1));
    assert_eq!(match_winner(&list(Some(false), None)), None);
    assert_eq!(match_winner(&list(None, None)), None);
}

#[test]
fn settling_moves_winner_up_and_loser_down() {
    let mut list = RateInfoList { rate_info_list: vec![info("a", "A", 400, Some(false)), info("b", "B", 550, Some(true))] };
    settle_match(&mut list, 1, RateDeltas { gain: 70, loss: 40 }, 60);
    assert_eq!(list.index(0).rate, 360);
    assert_eq!(list.index(1).rate, 610);
    assert_eq!(list.index(1).user_name, "B");
    assert!(check_rate_update(550, list.index(1).rate, 60).is_ok());
    assert!(check_rate_update(400, list.index(0).rate, 60).is_ok());
}

#[test]
fn config_keeps_its_values() {
    let c = Config::new("ap-northeast-1".to_string(), "ptera".to_string(), 100);
    assert_eq!((c.region.as_str(), c.table_name.as_str(), c.max_delta_rate), ("ap-northeast-1", "ptera", 100));
}
