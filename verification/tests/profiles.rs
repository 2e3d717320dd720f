//! Looking players up with the profile API.
use hyperion::player_uuid::Uuid;
use hyperion::profile::{
    rate_limit_applies, response_raw, username_from_profile_response, uuid_from_profile_response,
    ApiProvider, MojangClient, ProfileError, RefillStep,
};
use serde_json::Value;

const PROFILE_UUID_HYPHENATED: &str = "86271406-1188-44a5-8496-7af10c906204";
const PROFILE_UUID_COMPACT: &str = "86271406118844a584967af10c906204";
const PROFILE_NAME: &str = "Emerald_Explorer";

fn object(members: Vec<(&str, Value)>) -> Value {
    let mut map = serde_json::Map::new();
    for (key, value) in members {
        map.insert(key.to_string(), value);
    }
    Value::Object(map)
}

fn profile_json() -> Value {
    object(vec![
        ("id", Value::from(PROFILE_UUID_COMPACT)),
        ("name", Value::from(PROFILE_NAME)),
        ("profileActions", Value::Array(Vec::new())),
    ])
}

#[test]
fn uuid_from_profile_response_accepts_compact_uuid() {
    let uuid = uuid_from_profile_response(&profile_json()).unwrap();
    let expected = Uuid::parse(PROFILE_UUID_HYPHENATED).unwrap();

    assert_eq!(uuid, expected);
}

#[test]
fn uuid_from_profile_response_rejects_missing_id() {
    let json = object(vec![("name", Value::from(PROFILE_NAME))]);
    let err = uuid_from_profile_response(&json).unwrap_err();

    assert!(err.message().contains("no id"));
}

#[test]
fn username_from_profile_response_accepts_name() {
    let username = username_from_profile_response(&profile_json()).unwrap();

    assert_eq!(username, PROFILE_NAME);
}

#[test]
fn username_from_profile_response_rejects_non_string_name() {
    let json = object(vec![("name", Value::from(true))]);
    let err = username_from_profile_response(&json).unwrap_err();

    assert!(err.message().contains("Username not found"));
}

#[test]
fn api_provider_formats_username_url() {
    let url = ApiProvider::mat_does_dev().username_url(PROFILE_NAME);

    assert_eq!(url, "https://mowojang.matdoes.dev/users/profiles/minecraft/Emerald_Explorer");
}

#[test]
fn api_provider_formats_signed_uuid_url() {
    let uuid = Uuid::parse(PROFILE_UUID_HYPHENATED).unwrap();
    let url = ApiProvider::mat_does_dev().uuid_url(&uuid);

    assert_eq!(
        url,
        "https://mowojang.matdoes.dev/session/minecraft/profile/86271406-1188-44a5-8496-7af10c906204?unsigned=false"
    );
}

#[test]
fn mojang_provider() {
    let provider = ApiProvider::mojang();
    let uuid = Uuid::parse(PROFILE_UUID_COMPACT).unwrap();

    assert_eq!(
        provider.username_url("a b"),
        "https://api.mojang.com/users/profiles/minecraft/a b"
    );
    assert_eq!(
        provider.uuid_url(&uuid),
        "https://sessionserver.mojang.com/session/minecraft/profile/86271406-1188-44a5-8496-7af10c906204?unsigned=false"
    );
    assert_eq!(provider.max_requests(), 600);
    assert_eq!(provider.interval(), 600);
    let provider = ApiProvider::mat_does_dev();
    assert_eq!(provider.max_requests(), 10_000);
    assert_eq!(provider.interval(), 1);
}

#[test]
fn permits_are_filled_up_to_the_limit() {
    let provider = ApiProvider::mojang();
    assert_eq!(provider.permits_to_add(0), 600);
    assert_eq!(provider.permits_to_add(599), 1);
    assert_eq!(provider.permits_to_add(600), 0);
    assert_eq!(provider.initial_permits(), 600);
    assert_eq!(ApiProvider::mat_does_dev().initial_permits(), 10_000);
    assert_eq!(provider.refill_step(Some(450)), RefillStep::Add(150));
    assert_eq!(provider.refill_step(None), RefillStep::End);
    assert!(rate_limit_applies(0));
    assert!(!rate_limit_applies(1));
}

#[test]
fn requests_of_one_interval_stay_within_the_limit() {
    let provider = ApiProvider::mojang();
    let mut left: usize = provider.initial_permits();
    left -= 400;
    let counted = left;
    left -= 150;
    left += provider.permits_to_add(counted);
    assert_eq!(left, 450);
    assert_eq!(150 + left, 600);
}

#[test]
fn uuid_text_forms() {
    let bytes: [u8; 16] = [
        0x86, 0x27, 0x14, 0x06, 0x11, 0x88, 0x44, 0xa5, 0x84, 0x96, 0x7a, 0xf1, 0x0c, 0x90, 0x62,
        0x04,
    ];
    for text in [
        PROFILE_UUID_COMPACT,
        PROFILE_UUID_HYPHENATED,
        "86271406118844A584967AF10C906204",
        "{86271406-1188-44a5-8496-7af10c906204}",
        "urn:uuid:86271406-1188-44a5-8496-7af10c906204",
        "URN:UUID:86271406-1188-44A5-8496-7AF10C906204",
    ] {
        assert_eq!(Uuid::parse(text), Ok(Uuid { bytes }));
    }
    assert_eq!(Uuid { bytes }.to_text(), PROFILE_UUID_HYPHENATED);
    assert_eq!(Uuid { bytes: [0; 16] }.to_text(), "00000000-0000-0000-0000-000000000000");
}

#[test]
fn texts_that_are_no_uuid() {
    for text in [
        "",
        "86271406118844a584967af10c90620",
        "86271406118844a584967af10c906204a",
        "86271406118844a584967af10c90620g",
        "862714061188-44a5-8496-7af10c906204-",
        "{86271406118844a584967af10c906204}",
        "[86271406-1188-44a5-8496-7af10c906204]",
        "urn:guid:86271406-1188-44a5-8496-7af10c906204",
        "\u{e4}\u{e4}\u{e4}\u{e4}\u{e4}\u{e4}\u{e4}\u{e4}\u{e4}\u{e4}\u{e4}\u{e4}\u{e4}\u{e4}\u{e4}\u{e4}",
    ] {
        assert!(Uuid::parse(text).is_err());
    }
}

#[test]
fn written_uuid_reads_back() {
    let mut bytes = [0u8; 16];
    for i in 0..16u8 {
        bytes[i as usize] = i * 17;
    }
    let id = Uuid { bytes };

    assert_eq!(id.to_text(), "00112233-4455-6677-8899-aabbccddeeff");
    assert_eq!(Uuid::parse(&id.to_text()), Ok(id));
}

#[test]
fn id_must_be_a_string_and_an_id() {
    let json = object(vec![("id", Value::from(5))]);
    assert_eq!(uuid_from_profile_response(&json), Err(ProfileError::IdNotString));
    let json = object(vec![("id", Value::from("86271406"))]);
    let error = uuid_from_profile_response(&json).unwrap_err();
    let expected = uuid::Uuid::parse_str("86271406").unwrap_err().to_string();
    assert_eq!(error.message(), expected);
    assert!(matches!(error, ProfileError::InvalidId { cause } if cause == expected));
    let json = Value::Array(vec![Value::from("id")]);
    assert_eq!(uuid_from_profile_response(&json), Err(ProfileError::NoId));
}

#[test]
fn name_must_be_there() {
    let json = object(vec![("id", Value::from(PROFILE_UUID_COMPACT))]);
    let error = username_from_profile_response(&json).unwrap_err();
    assert_eq!(error, ProfileError::NoName);
    assert_eq!(error.message(), "no name in json");
}

#[test]
fn answer_without_success_is_refused() {
    let error = response_raw(false, "{}").unwrap_err();
    assert_eq!(error, ProfileError::RequestFailed);
    assert_eq!(error.message(), "Failed to retrieve data from API");
}

#[test]
fn answer_that_is_not_json_is_refused() {
    let error = response_raw(true, "<a href=\"x\">\n").unwrap_err();
    assert_eq!(
        error.message(),
        "failed to parse json from response: \"<a href=\\\"x\\\">\\n\""
    );
    assert!(matches!(error, ProfileError::InvalidJson { body, cause }
        if body == "<a href=\"x\">\n" && cause == "expected value at line 1 column 1"));
}

#[test]
fn answer_with_an_error_is_refused() {
    let error = response_raw(true, "{\"error\": \"not found\", \"id\": \"x\"}").unwrap_err();
    assert_eq!(error.message(), "API Error: not found");
    let error = response_raw(true, "{\"error\": 404}").unwrap_err();
    assert_eq!(error.message(), "API Error: Unknown error");
    let error = response_raw(true, "{\"error\": null}").unwrap_err();
    assert_eq!(error, ProfileError::Api { error: "Unknown error".to_string() });
}

#[test]
fn answers_are_handed_on() {
    let body = "{\"id\": \"86271406118844a584967af10c906204\", \"name\": \"Emerald_Explorer\", \"profileActions\": []}";
    assert_eq!(response_raw(true, body), Ok(profile_json()));
    assert_eq!(response_raw(true, "[1]"), Ok(Value::Array(vec![Value::from(1)])));
}

#[test]
fn client_reads_answers() {
    let client = MojangClient::new(ApiProvider::mojang());
    let body = "{\"id\": \"86271406118844a584967af10c906204\", \"name\": \"Emerald_Explorer\"}";
    assert_eq!(client.provider.max_requests(), 600);
    assert_eq!(
        client.get_uuid(true, body).unwrap().to_text(),
        PROFILE_UUID_HYPHENATED
    );
    assert_eq!(client.get_username(true, body), Ok(PROFILE_NAME.to_string()));
    assert_eq!(client.get_uuid(false, body), Err(ProfileError::RequestFailed));
    assert_eq!(client.get_username(false, body), Err(ProfileError::RequestFailed));
    assert_eq!(client.get_uuid(true, "{}"), Err(ProfileError::NoId));
    assert_eq!(
        client.get_uuid(true, "{\"error\": \"gone\"}"),
        Err(ProfileError::Api { error: "gone".to_string() })
    );
    let data = client.data_from_uuid(true, body).unwrap();
    assert_eq!(data, client.data_from_username(true, body).unwrap());
    assert_eq!(data["name"], Value::from(PROFILE_NAME));
}
