use ffrelay_api::api::find_email_relay;
use ffrelay_api::api::merge_list_results;
use ffrelay_api::error::Error;
use ffrelay_api::types::FirefoxEmailRelay;

fn relay(id: u64, address: &str) -> FirefoxEmailRelay {
    FirefoxEmailRelay {
        id,
        full_address: address.to_string(),
        description: String::new(),
        num_blocked: 0,
        num_forwarded: 0,
        num_replied: 0,
        num_spam: 0,
    }
}

fn failed() -> Result<Vec<FirefoxEmailRelay>, Error> {
    Err(Error::HttpError { message: "connection refused".to_string() })
}

#[test]
fn merge_keeps_standard_before_domain_in_server_order() {
    let standard = Ok(vec![relay(1, "a@mozmail.com"), relay(2, "b@mozmail.com")]);
    let domain = Ok(vec![relay(3, "c@my.example"), relay(4, "d@my.example")]);
    let merged = merge_list_results(standard, domain);
    let ids: Vec<u64> = merged.iter().map(|r| r.id).collect();
    assert_eq!(ids, vec![1, 2, 3, 4]);
}

#[test]
fn merge_with_failed_standard_keeps_domain_results() {
    let domain = Ok(vec![relay(3, "c@my.example")]);
    let merged = merge_list_results(failed(), domain);
    let ids: Vec<u64> = merged.iter().map(|r| r.id).collect();
    assert_eq!(ids, vec![3]);
}

#[test]
fn merge_with_failed_domain_keeps_standard_results() {
    let standard = Ok(vec![relay(1, "a@mozmail.com")]);
    let merged = merge_list_results(standard, failed());
    let ids: Vec<u64> = merged.iter().map(|r| r.id).collect();
    assert_eq!(ids, vec![1]);
}

#[test]
fn merge_with_both_failed_is_an_empty_success() {
    // The deliberate policy: listing never fails; when both sub-resource
    // calls fail the aggregate is simply empty.
    let merged = merge_list_results(failed(), failed());
    assert!(merged.is_empty());
}

#[test]
fn merge_keeps_empty_successes() {
    let merged = merge_list_results(Ok(vec![]), Ok(vec![relay(4, "d@my.example")]));
    let ids: Vec<u64> = merged.iter().map(|r| r.id).collect();
    assert_eq!(ids, vec![4]);
}

#[test]
fn find_returns_first_relay_with_the_id() {
    let relays = vec![
        relay(1, "a@mozmail.com"),
        relay(2, "b@my.example"),
        relay(2, "c@mozmail.com"),
    ];
    let found = find_email_relay(&relays, 2).unwrap();
    assert_eq!(found.full_address, "b@my.example");
}

#[test]
fn find_on_missing_id_is_not_found() {
    let relays = vec![relay(1, "a@mozmail.com")];
    assert_eq!(find_email_relay(&relays, 9), Err(Error::RelayIdNotFound));
}

#[test]
fn find_in_empty_listing_is_not_found() {
    let relays: Vec<FirefoxEmailRelay> = vec![];
    assert_eq!(find_email_relay(&relays, 1), Err(Error::RelayIdNotFound));
}
