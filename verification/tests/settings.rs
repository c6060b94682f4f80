use keter_rest::config::settings::{
    api_port, jwt_expire_duration, jwt_hash_cost, jwt_secret, pg_database_db, pg_database_host,
    pg_database_password, pg_database_port, pg_database_username, root_password, root_user,
    Environment,
};
use keter_rest::util::text::{decimal_text, parse_number, starts_with};

fn environment(pairs: Vec<(&str, &str)>) -> Environment {
    Environment::new(pairs.into_iter().map(|(name, value)| (name.to_owned(), value.to_owned())).collect())
}

#[test]
fn settings_come_from_their_variables() {
    let env = environment(vec![
        ("APP_ROOT_USER", "root@example.com"),
        ("APP_ROOT_PASSWORD", "secret"),
        ("APP_PORT", "8080"),
        ("PG_DATABASE_HOST", "db.local"),
        ("PG_DATABASE_PORT", "5432"),
        ("PG_DATABASE_DB", "keter"),
        ("PG_DATABASE_USERNAME", "postgres"),
        ("PG_DATABASE_PASSWORD", "pg-secret"),
        ("JWT_SECRET", "signing"),
        ("JWT_EXPIRE_DURATION", "120"),
        ("JWT_HASH_COST", "10"),
    ]);
    assert_eq!(root_user(&env), "root@example.com");
    assert_eq!(root_password(&env), "secret");
    assert_eq!(api_port(&env), 8080);
    assert_eq!(pg_database_host(&env), "db.local");
    assert_eq!(pg_database_port(&env), 5432);
    assert_eq!(pg_database_db(&env), "keter");
    assert_eq!(pg_database_username(&env), "postgres");
    assert_eq!(pg_database_password(&env), Some("pg-secret".to_owned()));
    assert_eq!(jwt_secret(&env), "signing");
    assert_eq!(jwt_expire_duration(&env), 120);
    assert_eq!(jwt_hash_cost(&env), 10);
}

#[test]
fn unset_settings_fall_back_to_their_defaults() {
    let env = environment(vec![("UNRELATED", "1")]);
    assert_eq!(api_port(&env), 3000);
    assert_eq!(jwt_expire_duration(&env), 3600);
    assert_eq!(jwt_hash_cost(&env), 4);
    assert_eq!(pg_database_password(&env), None);
    assert_eq!(env.get("APP_ROOT_USER"), None);
    assert_eq!(env.get_or_default("APP_PORT", "3000".to_owned()), "3000");
}

#[test]
fn first_entry_of_a_name_wins() {
    let env = environment(vec![("APP_PORT", "1"), ("APP_PORT", "2"), ("app_port", "3")]);
    assert_eq!(env.get("APP_PORT"), Some("1".to_owned()));
    assert_eq!(env.get("app_port"), Some("3".to_owned()));
    assert_eq!(api_port(&env), 1);
}

#[test]
fn numbers_that_are_no_numbers_are_told_apart() {
    let env = environment(vec![("APP_PORT", "65536"), ("JWT_HASH_COST", "four"), ("PG_DATABASE_PORT", "")]);
    assert_eq!(env.get_number("APP_PORT", 3000, 65535), None);
    assert_eq!(env.get_number("JWT_HASH_COST", 4, 0xffff_ffff), None);
    assert_eq!(env.get_number("PG_DATABASE_PORT", 0, 65535), None);
    assert_eq!(env.get_number("JWT_EXPIRE_DURATION", 3600, u64::MAX), Some(3600));
}

#[test]
fn decimal_numbers_parse_as_the_standard_library_does() {
    for text in ["0", "7", "+7", "007", "65535", "65536", "+", "", "-1", "1 ", " 1", "1_000", "१", "18446744073709551615", "18446744073709551616", "000000000000000000000000000001", "99999999999999999999999"] {
        assert_eq!(parse_number(text, 65535), text.parse::<u16>().ok().map(u64::from), "{:?}", text);
        assert_eq!(parse_number(text, u64::MAX), text.parse::<u64>().ok(), "{:?}", text);
        assert_eq!(parse_number(text, 0xffff_ffff), text.parse::<u32>().ok().map(u64::from), "{:?}", text);
    }
    assert_eq!(parse_number("0", 0), Some(0));
    assert_eq!(parse_number("1", 0), None);
}

#[test]
fn numbers_are_written_in_decimal() {
    assert_eq!(decimal_text(0), "0");
    assert_eq!(decimal_text(9), "9");
    assert_eq!(decimal_text(10), "10");
    assert_eq!(decimal_text(4_294_967_295), "4294967295");
    assert_eq!(decimal_text(u64::MAX), "18446744073709551615");
    for value in [0u64, 1, 42, 1090, 65535, 1_700_000_000] {
        assert_eq!(decimal_text(value), value.to_string());
        assert_eq!(parse_number(&decimal_text(value), u64::MAX), Some(value));
    }
}

#[test]
fn prefixes_are_recognised() {
    assert!(starts_with("application/json; charset=utf-8", "application/json"));
    assert!(starts_with("abc", ""));
    assert!(starts_with("", ""));
    assert!(!starts_with("ab", "abc"));
    assert!(!starts_with("abd", "abc"));
    assert!(starts_with("h\u{e9}llo", "h\u{e9}"));
    assert!(!starts_with("h\u{e9}llo", "he"));
}
