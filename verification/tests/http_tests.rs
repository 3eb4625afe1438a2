use radio_ondemand::http::fetch_text;
use radio_ondemand::model::Error;

#[test]
fn unreachable_url_is_a_network_error_naming_it() {
    let r = fetch_text("not a url at all");
    match r {
        Err(Error::Network { url }) => assert_eq!(url, "not a url at all"),
        _ => panic!("a URL that cannot be fetched must give a network error"),
    }
}
