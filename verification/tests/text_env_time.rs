use linkwithmentor::env::EnvVars;
use linkwithmentor::text::{
    decimal_string, parse_bool, parse_u16, parse_u32, replace_all, split_char, trim, uuid_string,
};
use linkwithmentor::time::{Timestamp, TimeOfDay};

fn env(pairs: &[(&str, &str)]) -> EnvVars {
    EnvVars { vars: pairs.iter().map(|(k, v)| (k.to_string(), v.to_string())).collect() }
}

#[test]
fn decimal_text_reads_back() {
    for n in [0u64, 7, 10, 65535, 4_294_967_295] {
        let t = decimal_string(n);
        assert_eq!(t, n.to_string());
        assert_eq!(parse_u32(&t).map(u64::from), if n <= u32::MAX as u64 { Some(n) } else { None });
    }
    assert_eq!(parse_u16("+80"), Some(80));
    assert_eq!(parse_u16("65536"), None);
    assert_eq!(parse_u16(""), None);
    assert_eq!(parse_u16("-1"), None);
    assert_eq!(parse_bool("true"), Some(true));
    assert_eq!(parse_bool("True"), None);
}

#[test]
fn splitting_trimming_replacing() {
    assert_eq!(split_char("a,,b", ','), vec!["a", "", "b"]);
    assert_eq!(split_char("", ','), vec![""]);
    assert_eq!(trim("\t hi there \n"), "hi there");
    assert_eq!(replace_all("aaa", "aa", "b"), "ba");
    assert_eq!(uuid_string(1), "00000000-0000-0000-0000-000000000001");
}

#[test]
fn settings_fall_back_to_defaults() {
    let e = env(&[("PORT", "9000"), ("BAD", "x"), ("FLAG", "false"), ("LIST", "a, b")]);
    assert_eq!(e.u16_or("PORT", 1), 9000);
    assert_eq!(e.u16_or("BAD", 1), 1);
    assert_eq!(e.u16_or("MISSING", 2), 2);
    assert!(!e.bool_or("FLAG", true));
    assert_eq!(e.get("PORT"), Some("9000".to_string()));
    assert_eq!(e.list_or("LIST", "z"), vec!["a".to_string(), "b".to_string()]);
    assert_eq!(e.list_or("NONE", "x,y"), vec!["x".to_string(), "y".to_string()]);
    assert_eq!(e.u32_list_or("NONE", "1,x,3"), vec![1, 3]);
}

#[test]
fn calendar_arithmetic() {
    let epoch = Timestamp { secs: 0, nanos: 0 };
    assert_eq!(epoch.weekday(), 4);
    let t = Timestamp { secs: 1_700_000_000, nanos: 5 };
    assert_eq!(t.weekday(), 2);
    assert_eq!(t.time_of_day(), TimeOfDay { secs: 1_700_000_000 % 86400, nanos: 5 });
    let before = Timestamp { secs: -1, nanos: 0 };
    assert_eq!(before.weekday(), 3);
    assert_eq!(before.time_of_day().secs, 86399);
    assert_eq!(t.plus_seconds(-1_700_000_000), Timestamp { secs: 0, nanos: 5 });
    assert!(epoch.before(&t));
    assert!(!t.before(&t));
}

#[test]
fn clock_readings_become_instants_within_range() {
    assert_eq!(linkwithmentor::time::timestamp_of(5, 7), Some(Timestamp { secs: 5, nanos: 7 }));
    assert_eq!(linkwithmentor::time::timestamp_of(linkwithmentor::time::MAX_SECS as u64 + 1, 0), None);
    assert!(linkwithmentor::time::utc_now().is_some());
}
