use ffrelay_api::cli::choose_token;
use ffrelay_api::cli::CreateArgs;
use ffrelay_api::types::FirefoxEmailRelayRequest;

#[test]
fn builder_defaults_enabled_true_address_absent() {
    let request = FirefoxEmailRelayRequest::builder()
        .description("shopping".to_string())
        .build();
    assert_eq!(request.description, "shopping");
    assert_eq!(request.enabled, true);
    assert_eq!(request.address, None);
}

#[test]
fn builder_keeps_explicit_enabled_false() {
    let request = FirefoxEmailRelayRequest::builder()
        .description("newsletter".to_string())
        .enabled(false)
        .build();
    assert_eq!(request.enabled, false);
}

#[test]
fn builder_keeps_address() {
    let request = FirefoxEmailRelayRequest::builder()
        .description("newsletter".to_string())
        .address("news".to_string())
        .build();
    assert_eq!(request.address, Some("news".to_string()));
}

#[test]
fn builder_maybe_address_none_stays_absent() {
    let request = FirefoxEmailRelayRequest::builder()
        .description("d".to_string())
        .maybe_address(None)
        .build();
    assert_eq!(request.address, None);
}

#[test]
fn builder_maybe_address_some_is_kept() {
    let request = FirefoxEmailRelayRequest::builder()
        .description("d".to_string())
        .maybe_address(Some("me".to_string()))
        .build();
    assert_eq!(request.address, Some("me".to_string()));
}

#[test]
fn create_args_map_to_enabled_request() {
    let args = CreateArgs {
        description: "for forms".to_string(),
        address: Some("forms".to_string()),
    };
    let request = args.into_request();
    assert_eq!(request.description, "for forms");
    assert_eq!(request.enabled, true);
    assert_eq!(request.address, Some("forms".to_string()));
}

#[test]
fn choose_token_prefers_command_line() {
    let picked = choose_token(Some("cli".to_string()), Some("stored".to_string()));
    assert_eq!(picked, Some("cli".to_string()));
}

#[test]
fn choose_token_falls_back_to_stored() {
    let picked = choose_token(None, Some("stored".to_string()));
    assert_eq!(picked, Some("stored".to_string()));
}

#[test]
fn choose_token_none_when_neither_given() {
    let picked = choose_token(None, None);
    assert_eq!(picked, None);
}
