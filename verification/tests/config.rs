use perspective::ClientConfigBuilder;

#[test]
fn test_client_config_builder() {
    let config = ClientConfigBuilder::default()
        .api_key("api_key".into())
        .request_buffer_size(16)
        .response_buffer_size(16)
        .maximum_queue_size(128)
        .tick_rate(1100)
        .build()
        .unwrap();

    assert_eq!(config.api_key, "api_key");
    assert_eq!(config.request_buffer_size, 16);
    assert_eq!(config.response_buffer_size, 16);
    assert_eq!(config.maximum_queue_size, 128);
    assert_eq!(config.tick_rate, 1100);
}

#[test]
fn test_client_config_builder_validate() {
    let config = ClientConfigBuilder::default()
        .api_key("api_key".into())
        .request_buffer_size(0)
        .response_buffer_size(0)
        .maximum_queue_size(0)
        .tick_rate(999)
        .build();

    assert!(config.is_err());
}

#[test]
fn config_defaults_apply_when_unset() {
    let config = ClientConfigBuilder::default()
        .api_key("k".into())
        .build()
        .unwrap();

    assert_eq!(config.api_key, "k");
    assert_eq!(config.request_buffer_size, 16);
    assert_eq!(config.response_buffer_size, 16);
    assert_eq!(config.maximum_queue_size, 128);
    assert_eq!(config.tick_rate, 1100);
}

#[test]
fn config_requires_api_key() {
    let config = ClientConfigBuilder::default().build();
    assert_eq!(config.unwrap_err(), "api key must be initialized");
}

#[test]
fn config_rejects_zero_request_buffer() {
    let config = ClientConfigBuilder::default()
        .api_key("k".into())
        .request_buffer_size(0)
        .build();
    assert_eq!(config.unwrap_err(), "request buffer size cannot be 0");
}

#[test]
fn config_rejects_zero_response_buffer() {
    let config = ClientConfigBuilder::default()
        .api_key("k".into())
        .response_buffer_size(0)
        .build();
    assert_eq!(config.unwrap_err(), "response buffer size cannot be 0");
}

#[test]
fn config_rejects_zero_queue_size() {
    let config = ClientConfigBuilder::default()
        .api_key("k".into())
        .maximum_queue_size(0)
        .build();
    assert_eq!(config.unwrap_err(), "maximum queue size cannot be 0");
}

#[test]
fn config_rejects_fast_tick_rate() {
    let config = ClientConfigBuilder::default()
        .api_key("k".into())
        .tick_rate(999)
        .build();
    assert_eq!(config.unwrap_err(), "tick rate cannot be less than 1000 ms");
}

#[test]
fn config_accepts_minimum_tick_rate() {
    let config = ClientConfigBuilder::default()
        .api_key("k".into())
        .tick_rate(1000)
        .build()
        .unwrap();
    assert_eq!(config.tick_rate, 1000);
}
