use actix_cbor::config::{resolve, CborConfig, DEFAULT_LIMIT};

type Predicate = fn(&str) -> bool;

type Handler = fn(u8) -> u8;

type Config = CborConfig<Predicate, Handler>;

fn only_text(media_type: &str) -> bool {
    media_type == "text/plain"
}

fn only_html(media_type: &str) -> bool {
    media_type == "text/html"
}

fn double(x: u8) -> u8 {
    x * 2
}

fn triple(x: u8) -> u8 {
    x * 3
}

#[test]
fn new_settings_specify_nothing() {
    let config = Config::new();
    assert!(config.limit.is_none());
    assert!(config.content_type.is_none());
    assert!(config.err_handler.is_none());

    let config = Config::default();
    assert!(config.limit.is_none());
    assert!(config.content_type.is_none());
    assert!(config.err_handler.is_none());
}

#[test]
fn builders_set_one_field_each() {
    let config = Config::new().limit(10);
    assert_eq!(config.limit, Some(10));
    assert!(config.content_type.is_none());
    assert!(config.err_handler.is_none());

    let config = Config::new().content_type_raw(only_text);
    assert!(config.limit.is_none());
    assert!((config.content_type.unwrap())("text/plain"));
    assert!(config.err_handler.is_none());

    let config = Config::new().error_handler(double);
    assert!(config.limit.is_none());
    assert!(config.content_type.is_none());
    assert_eq!((config.err_handler.unwrap())(4), 8);

    let config = Config::new().limit(1).limit(2).content_type_raw(only_text).error_handler(double);
    assert_eq!(config.limit, Some(2));
    assert!(config.content_type.is_some());
    assert!(config.err_handler.is_some());
}

#[test]
fn nothing_specified_resolves_to_the_built_in_defaults() {
    let fallback = Config::new();
    let resolved = resolve(None, &fallback);
    assert_eq!(resolved.limit, 262_144);
    assert_eq!(resolved.limit, DEFAULT_LIMIT);
    assert!(resolved.content_type.is_none());
    assert!(resolved.err_handler.is_none());

    let route = Config::new();
    let resolved = resolve(Some(&route), &fallback);
    assert_eq!(resolved.limit, 262_144);
    assert!(resolved.content_type.is_none());
    assert!(resolved.err_handler.is_none());
}

#[test]
fn route_overrides_only_what_it_specifies() {
    let fallback = Config::new().limit(4096).content_type_raw(only_text).error_handler(double);

    let route = Config::new().limit(10);
    let resolved = resolve(Some(&route), &fallback);
    assert_eq!(resolved.limit, 10);
    assert!((resolved.content_type.unwrap())("text/plain"));
    assert_eq!((resolved.err_handler.unwrap())(5), 10);

    let route = Config::new().content_type_raw(only_html);
    let resolved = resolve(Some(&route), &fallback);
    assert_eq!(resolved.limit, 4096);
    assert!((resolved.content_type.unwrap())("text/html"));
    assert!(!(resolved.content_type.unwrap())("text/plain"));
    assert_eq!((resolved.err_handler.unwrap())(5), 10);

    let route = Config::new().error_handler(triple);
    let resolved = resolve(Some(&route), &fallback);
    assert_eq!(resolved.limit, 4096);
    assert!((resolved.content_type.unwrap())("text/plain"));
    assert_eq!((resolved.err_handler.unwrap())(5), 15);
}

#[test]
fn fully_specified_route_is_used_as_it_stands() {
    let fallback = Config::new().limit(4096).content_type_raw(only_text).error_handler(double);
    let route = Config::new().limit(0).content_type_raw(only_html).error_handler(triple);
    let resolved = resolve(Some(&route), &fallback);
    assert_eq!(resolved.limit, 0);
    assert!((resolved.content_type.unwrap())("text/html"));
    assert_eq!((resolved.err_handler.unwrap())(1), 3);
}

#[test]
fn without_a_route_the_fallback_decides() {
    let fallback = Config::new().limit(4096).error_handler(double);
    let resolved = resolve(None, &fallback);
    assert_eq!(resolved.limit, 4096);
    assert!(resolved.content_type.is_none());
    assert_eq!((resolved.err_handler.unwrap())(7), 14);
}
