use uc_api::entity::EntityType;
use uc_api::entity::MediaPlayerCommand;
use uc_api::entity::MediaPlayerDeviceClass;
use uc_api::entity::MediaPlayerFeature;
use uc_api::entity::MediaType;

// make sure the DPad variant is serialized as `dpad` and not as `d_pad`
#[test]
fn deserialize_mediaplayer_feature_with_strum() {
    let feature = MediaPlayerFeature::DPad;
    assert_eq!("dpad", feature.as_str());
    assert_eq!(feature, MediaPlayerFeature::from_str("dpad").unwrap());
}

#[test]
fn deserialize_mediaplayer_command_with_strum() {
    let cmd = MediaPlayerCommand::Digit_1;
    assert_eq!("digit_1", cmd.as_str());
    assert_eq!(cmd, MediaPlayerCommand::from_str("digit_1").unwrap());
}

#[test]
fn deserialize_mediaplayer_feature() {
    let json: serde_json::Value =
        serde_json::from_str(r#"{ "feature": "dpad" }"#).expect("Invalid json message");
    let name = json
        .get("feature")
        .and_then(|v| v.as_str())
        .expect("Invalid json message");
    let feature = MediaPlayerFeature::from_str(name).expect("Invalid json message");

    assert_eq!(MediaPlayerFeature::DPad, feature);
}

#[test]
fn deserialize_mediaplayer_command() {
    let json: serde_json::Value =
        serde_json::from_str(r#"{ "cmd": "digit_0" }"#).expect("Invalid json message");
    let name = json
        .get("cmd")
        .and_then(|v| v.as_str())
        .expect("Invalid json message");
    let cmd = MediaPlayerCommand::from_str(name).expect("Invalid json message");

    assert_eq!(MediaPlayerCommand::Digit_0, cmd);
}

#[test]
fn dpad_does_not_use_default_casing() {
    assert_eq!(None, MediaPlayerFeature::from_str("d_pad"));
    assert_eq!(Some(MediaPlayerFeature::DPad), MediaPlayerFeature::from_str("dpad"));
}

#[test]
fn entity_type_wire_names() {
    assert_eq!("media_player", EntityType::MediaPlayer.as_str());
    assert_eq!("button", EntityType::Button.as_str());
    assert_eq!(Some(EntityType::MediaPlayer), EntityType::from_str("media_player"));
    assert_eq!(None, EntityType::from_str("MediaPlayer"));
}

#[test]
fn media_type_uses_screaming_snake_case() {
    assert_eq!("TVSHOW", MediaType::Tvshow.as_str());
    assert_eq!("MUSIC", MediaType::Music.as_str());
    assert_eq!(Some(MediaType::Movie), MediaType::from_str("MOVIE"));
    assert_eq!(None, MediaType::from_str("movie"));
}

#[test]
fn tv_device_class_keeps_short_wire_name() {
    assert_eq!("tv", MediaPlayerDeviceClass::TV.as_str());
    assert_eq!("set_top_box", MediaPlayerDeviceClass::SetTopBox.as_str());
    assert_eq!(Some(MediaPlayerDeviceClass::TV), MediaPlayerDeviceClass::from_str("tv"));
}
