use ffrelay_api::api::create_outcome;
use ffrelay_api::api::Endpoint;
use ffrelay_api::api::FFRelayApi;
use ffrelay_api::api::HttpMethod;
use ffrelay_api::api::RequestBody;
use ffrelay_api::error::Error;
use ffrelay_api::types::FirefoxEmailRelay;
use ffrelay_api::types::FirefoxEmailRelayRequest;

fn relay(id: u64, address: &str) -> FirefoxEmailRelay {
    FirefoxEmailRelay {
        id,
        full_address: address.to_string(),
        description: String::new(),
        num_blocked: 0,
        num_forwarded: 0,
        num_replied: 0,
        num_spam: 0,
    }
}

fn api() -> FFRelayApi {
    FFRelayApi::new("secret".to_string())
}

#[test]
fn auth_header_embeds_token() {
    assert_eq!(api().auth_header().as_str(), "Token secret");
}

#[test]
fn create_without_address_targets_standard_sub_resource() {
    let request = FirefoxEmailRelayRequest::builder()
        .description("d".to_string())
        .build();
    let plan = api().create_request(request);
    assert_eq!(plan.method, HttpMethod::Post);
    assert_eq!(
        plan.url.as_str(),
        "https://relay.firefox.com/api/v1/relayaddresses/"
    );
}

#[test]
fn create_with_address_targets_domain_sub_resource() {
    let request = FirefoxEmailRelayRequest::builder()
        .description("d".to_string())
        .address("me".to_string())
        .build();
    let plan = api().create_request(request);
    assert_eq!(plan.method, HttpMethod::Post);
    assert_eq!(
        plan.url.as_str(),
        "https://relay.firefox.com/api/v1/domainaddresses/"
    );
}

#[test]
fn create_body_carries_the_request() {
    let request = FirefoxEmailRelayRequest::builder()
        .description("d".to_string())
        .build();
    let plan = api().create_request(request.clone());
    assert_eq!(plan.body, RequestBody::Create(request));
}

#[test]
fn create_outcome_is_the_full_address() {
    let created = relay(3, "fresh@mozmail.com");
    assert_eq!(create_outcome(created), "fresh@mozmail.com");
}

#[test]
fn list_requests_address_each_sub_resource() {
    let standard = api().list_request(Endpoint::Standard);
    assert_eq!(standard.method, HttpMethod::Get);
    assert_eq!(
        standard.url.as_str(),
        "https://relay.firefox.com/api/v1/relayaddresses"
    );
    assert_eq!(standard.body, RequestBody::Empty);

    let domain = api().list_request(Endpoint::Domain);
    assert_eq!(
        domain.url.as_str(),
        "https://relay.firefox.com/api/v1/domainaddresses"
    );
}

#[test]
fn profiles_request_addresses_profile_listing() {
    let plan = api().profiles_request();
    assert_eq!(plan.method, HttpMethod::Get);
    assert_eq!(plan.url.as_str(), "https://relay.firefox.com/api/v1/profiles/");
    assert_eq!(plan.body, RequestBody::Empty);
}

#[test]
fn delete_on_standard_relay_targets_standard_path() {
    let relays = vec![relay(7, "abc@mozmail.com")];
    let plan = api().delete_request(&relays, 7).unwrap();
    assert_eq!(plan.method, HttpMethod::Delete);
    assert_eq!(
        plan.url.as_str(),
        "https://relay.firefox.com/api/v1/relayaddresses/7"
    );
    assert_eq!(plan.body, RequestBody::Empty);
}

#[test]
fn delete_on_domain_relay_targets_domain_path() {
    let relays = vec![relay(7, "abc@mozmail.com"), relay(42, "me@custom.example")];
    let plan = api().delete_request(&relays, 42).unwrap();
    assert_eq!(
        plan.url.as_str(),
        "https://relay.firefox.com/api/v1/domainaddresses/42"
    );
}

#[test]
fn delete_on_unknown_id_is_not_found() {
    let relays = vec![relay(7, "abc@mozmail.com")];
    assert_eq!(api().delete_request(&relays, 8), Err(Error::RelayIdNotFound));
}

#[test]
fn enable_targets_trailing_slash_path_with_toggle_body() {
    let relays = vec![relay(7, "abc@mozmail.com")];
    let plan = api().enable_request(&relays, 7).unwrap();
    assert_eq!(plan.method, HttpMethod::Patch);
    assert_eq!(
        plan.url.as_str(),
        "https://relay.firefox.com/api/v1/relayaddresses/7/"
    );
    assert_eq!(plan.body, RequestBody::Toggle(true));
}

#[test]
fn disable_sends_toggle_false() {
    let relays = vec![relay(9, "me@custom.example")];
    let plan = api().disable_request(&relays, 9).unwrap();
    assert_eq!(plan.method, HttpMethod::Patch);
    assert_eq!(
        plan.url.as_str(),
        "https://relay.firefox.com/api/v1/domainaddresses/9/"
    );
    assert_eq!(plan.body, RequestBody::Toggle(false));
}

#[test]
fn enable_on_unknown_id_is_not_found() {
    let relays = vec![relay(7, "abc@mozmail.com")];
    assert_eq!(api().enable_request(&relays, 8), Err(Error::RelayIdNotFound));
    assert_eq!(api().disable_request(&relays, 8), Err(Error::RelayIdNotFound));
}

#[test]
fn resolution_uses_first_relay_with_the_id() {
    let relays = vec![relay(5, "abc@mozmail.com"), relay(5, "me@custom.example")];
    let plan = api().delete_request(&relays, 5).unwrap();
    assert_eq!(
        plan.url.as_str(),
        "https://relay.firefox.com/api/v1/relayaddresses/5"
    );
}
