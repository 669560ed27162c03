use miniexec::kvpair::KvPair;
use miniexec::kvpair::parse_kv_pair;
use miniexec::weburl::parse_url;

#[test]
fn parse_url_works() {
    assert!(parse_url("abc").is_err());
    assert!(parse_url("http://abc.xyz").is_ok());
    assert!(parse_url("https://httpbin.org/post").is_ok());
}

#[test]
fn parse_kv_pair_works() {
    assert!(parse_kv_pair("a").is_err());
    assert_eq!(
        parse_kv_pair("a=1").unwrap(),
        KvPair {
            k: "a".into(),
            v: "1".into()
        }
    );

    assert_eq!(
        parse_kv_pair("b=").unwrap(),
        KvPair {
            k: "b".into(),
            v: "".into()
        }
    );
}

#[test]
fn parse_kv_pair_ignores_a_third_field() {
    assert_eq!(
        parse_kv_pair("a=1=2").unwrap(),
        KvPair {
            k: "a".into(),
            v: "1".into()
        }
    );
}

#[test]
fn parse_kv_pair_allows_an_empty_key() {
    assert_eq!(
        parse_kv_pair("=x").unwrap(),
        KvPair {
            k: "".into(),
            v: "x".into()
        }
    );
}

#[test]
fn parse_kv_pair_handles_multibyte_text() {
    assert_eq!(
        parse_kv_pair("键=值").unwrap(),
        KvPair {
            k: "键".into(),
            v: "值".into()
        }
    );
}

#[test]
fn parse_kv_pair_keeps_the_rejected_input() {
    let e = parse_kv_pair("no separator").unwrap_err();
    assert_eq!(e.input, "no separator");
}

#[test]
fn parse_url_hands_back_the_address_unchanged() {
    assert_eq!(parse_url("http://abc.xyz").unwrap(), "http://abc.xyz");
}

#[test]
fn parse_url_keeps_the_rejected_input() {
    let e = parse_url("abc").unwrap_err();
    assert_eq!(e.input, "abc");
}
