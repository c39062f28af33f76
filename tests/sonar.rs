use my_midi::steelseries_sonar_api::{is_known_channel, is_stream_mode, is_stream_mode_name, Sonar, SonarError};

#[test]
fn new_reads_the_address_from_core_props() {
    let props = r#"{"address":"127.0.0.1:6327","encryptedAddress":"127.0.0.1:6328","ggEncryptedAddress":"127.0.0.1:6329"}"#;
    let s = Sonar::new(false, props).unwrap();
    assert_eq!(s.base_url(), "https://127.0.0.1:6329");
    assert_eq!(s.web_server_address(), "");
    assert!(!s.streamer_mode());
    assert_eq!(s.sub_apps_url(), "https://127.0.0.1:6329/subApps");
}

#[test]
fn new_rejects_bad_core_props() {
    assert_eq!(Sonar::new(false, "not json").unwrap_err(), SonarError::InvalidCoreProps);
    assert_eq!(Sonar::new(false, r#"{"address":"x"}"#).unwrap_err(), SonarError::InvalidCoreProps);
    assert_eq!(Sonar::new(true, r#"{"ggEncryptedAddress":5}"#).unwrap_err(), SonarError::InvalidCoreProps);
}

#[test]
fn load_base_url_replaces_only_the_base_url() {
    let mut s = Sonar::with_address(true, "a:1");
    assert_eq!(s.load_base_url(r#"{"ggEncryptedAddress":"b:2"}"#), Ok(()));
    assert_eq!(s.base_url(), "https://b:2");
    assert_eq!(s.load_base_url("{}"), Err(SonarError::InvalidCoreProps));
    assert_eq!(s.base_url(), "https://b:2");
}

#[test]
fn web_server_address_from_sub_apps() {
    let mut s = Sonar::with_address(false, "gg:1");
    let body = r#"{"subApps":{"engine":{},"sonar":{"isEnabled":true,"metadata":{"webServerAddress":"http://127.0.0.1:51234"}}}}"#;
    assert_eq!(s.update_web_server_address(body), Ok(()));
    assert_eq!(s.web_server_address(), "http://127.0.0.1:51234");
    assert_eq!(s.update_web_server_address(r#"{"subApps":{}}"#), Err(SonarError::InvalidSubApps));
    assert_eq!(s.web_server_address(), "http://127.0.0.1:51234");
}

#[test]
fn volume_url_prefix_in_classic_and_streamer_mode() {
    let body = r#"{"subApps":{"sonar":{"metadata":{"webServerAddress":"http://h:9"}}}}"#;
    let mut classic = Sonar::with_address(false, "gg:1");
    classic.update_web_server_address(body).unwrap();
    assert_eq!(
        classic.volume_url_prefix("master", 64).unwrap(),
        "http://h:9/volumeSettings/classic/master/Volume/"
    );
    let mut streamer = Sonar::with_address(true, "gg:1");
    streamer.update_web_server_address(body).unwrap();
    assert_eq!(
        streamer.volume_url_prefix("chatRender", 0).unwrap(),
        "http://h:9/volumeSettings/streamer/monitoring/chatRender/Volume/"
    );
}

#[test]
fn volume_request_errors() {
    let s = Sonar::with_address(false, "gg:1");
    assert_eq!(s.volume_url_prefix("chat", 10), Err(SonarError::ChannelNotFound));
    assert_eq!(s.volume_url_prefix("master", 128), Err(SonarError::InvalidVolume));
    assert_eq!(s.volume_url_prefix("nope", 200), Err(SonarError::ChannelNotFound));
    assert!(s.volume_url_prefix("aux", 127).is_ok());
    assert_eq!(SonarError::ChannelNotFound.message(), "Channel not found");
    assert_eq!(SonarError::InvalidVolume.message(), "Invalid volume");
}

#[test]
fn known_channels() {
    for c in ["master", "game", "chatRender", "media", "aux", "chatCapture"] {
        assert!(is_known_channel(c));
    }
    for c in ["", "chat", "Master", "masterx"] {
        assert!(!is_known_channel(c));
    }
}

#[test]
fn stream_mode_ignores_case() {
    assert!(is_stream_mode("stream"));
    assert!(is_stream_mode("Stream"));
    assert!(is_stream_mode("STREAM"));
    assert!(!is_stream_mode("classic"));
    assert!(!is_stream_mode("streamer"));
    assert!(is_stream_mode_name("stream"));
    assert!(!is_stream_mode_name("Stream"));
}

#[test]
fn set_base_address_keeps_the_rest() {
    let mut s = Sonar::with_address(true, "a:1");
    s.set_base_address("c:3");
    assert_eq!(s.base_url(), "https://c:3");
    assert!(s.streamer_mode());
    assert_eq!(s.web_server_address(), "");
}
