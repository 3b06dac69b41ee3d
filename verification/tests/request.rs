use subsonic_client::registry::{Operation, OperationInfo, Parameter};
use subsonic_client::request::{
    build_query, first_missing, ArgValue, IntoOptionFallback, IntoOptionHelper,
};
use subsonic_client::version::Version;
use subsonic_client::{Error, SubsonicClient};

fn client(major: u32, minor: u32, patch: u32) -> SubsonicClient {
    SubsonicClient::with_version(
        "joe".to_string(),
        "sesame".to_string(),
        "http://host:4040".to_string(),
        Version::new(major, minor, patch),
    )
}

fn text(s: &str) -> Option<ArgValue> {
    Some(ArgValue::Text(s.to_string()))
}

#[test]
fn into_option_keeps_an_optional_value() {
    assert_eq!(IntoOptionHelper(Some(3u32)).into_option(), Some(3u32));
    assert_eq!(IntoOptionHelper(None::<u32>).into_option(), None);
}

#[test]
fn into_option_wraps_a_plain_value() {
    assert_eq!(IntoOptionHelper(3u32).into_option(), Some(3u32));
    assert_eq!(IntoOptionHelper("id").into_option(), Some("id"));
    assert_eq!(IntoOptionFallback::into_option(IntoOptionHelper(Some(1u8))), Some(Some(1u8)));
}

#[test]
fn registry_holds_name_version_and_parameters() {
    assert_eq!(
        Operation::Ping.info(),
        OperationInfo { name: "ping", since: Version::new(1, 0, 0), parameters: vec![] }
    );
    assert_eq!(
        Operation::GetSongsByGenre.info(),
        OperationInfo {
            name: "get_songs_by_genre",
            since: Version::new(1, 9, 0),
            parameters: vec![
                Parameter { name: "genre", since: Version::new(1, 9, 0), required: true },
                Parameter { name: "count", since: Version::new(1, 9, 0), required: false },
                Parameter { name: "offset", since: Version::new(1, 9, 0), required: false },
                Parameter { name: "music_folder_id", since: Version::new(1, 12, 0), required: false },
            ],
        }
    );
    let scrobble = Operation::Scrobble.info();
    assert_eq!(scrobble.since, Version::new(1, 5, 0));
    assert_eq!(scrobble.parameters[1].name, "time");
    assert_eq!(scrobble.parameters[1].since, Version::new(1, 8, 0));
    assert_eq!(Operation::Search3.info().parameters.len(), 8);
    assert_eq!(Operation::UpdateInternetRadioStation.info().since, Version::new(1, 16, 0));
    assert_eq!(Operation::GetPlaylists.info().parameters[0].since, Version::new(1, 8, 0));
}

#[test]
fn build_with_forms_the_whole_address() {
    let url = client(1, 16, 1)
        .build_with(
            Operation::GetIndexes,
            &vec![text("3"), Some(ArgValue::Number(1700000000000))],
            "t=abc&s=def",
        )
        .unwrap();
    assert_eq!(
        url,
        "http://host:4040/rest/getIndexes?u=joe&v=1.16.1&f=xml&t=abc&s=def&musicFolderId=3&ifModifiedSince=1700000000000"
    );
}

#[test]
fn build_with_passes_over_arguments_without_a_value() {
    let c = client(1, 16, 1);
    assert_eq!(
        c.build_with(Operation::Ping, &vec![], "p=enc:00").unwrap(),
        "http://host:4040/rest/ping?u=joe&v=1.16.1&f=xml&p=enc:00"
    );
    assert_eq!(
        c.build_with(
            Operation::GetArtistInfo2,
            &vec![text("42"), None, Some(ArgValue::Flag(true))],
            "A"
        )
        .unwrap(),
        "http://host:4040/rest/getArtistInfo2?u=joe&v=1.16.1&f=xml&A&id=42&includeNotPresent=true"
    );
    assert_eq!(
        c.build_with(Operation::GetRandomSongs, &vec![None, text("Rock")], "A").unwrap(),
        "http://host:4040/rest/getRandomSongs?u=joe&v=1.16.1&f=xml&A&genre=Rock"
    );
    assert_eq!(
        c.build_with(Operation::Scrobble, &vec![text("9"), None, Some(ArgValue::Flag(false))], "A")
            .unwrap(),
        "http://host:4040/rest/scrobble?u=joe&v=1.16.1&f=xml&A&id=9&submission=false"
    );
}

#[test]
fn values_are_written_as_they_are() {
    let c = client(1, 16, 1);
    assert_eq!(
        c.build_with(Operation::AddChatMessage, &vec![text("a b&c=d")], "A").unwrap(),
        "http://host:4040/rest/addChatMessage?u=joe&v=1.16.1&f=xml&A&message=a b&c=d"
    );
}

#[test]
fn operation_newer_than_server_is_refused() {
    assert_eq!(
        client(1, 13, 0).build_with(Operation::GetVideoInfo, &vec![text("1")], "A"),
        Err(Error::APIVersionMismatch(1, 13, 0, 1, 14, 0))
    );
    assert_eq!(
        client(1, 13, 0).build(Operation::GetVideoInfo, &vec![text("1")]),
        Err(Error::APIVersionMismatch(1, 13, 0, 1, 14, 0))
    );
    assert_eq!(
        client(0, 9, 9).build(Operation::Ping, &vec![]),
        Err(Error::APIVersionMismatch(0, 9, 9, 1, 0, 0))
    );
    assert!(!client(1, 13, 0).supports(Operation::GetVideoInfo));
    assert!(client(1, 14, 0).supports(Operation::GetVideoInfo));
    assert!(client(2, 0, 0).supports(Operation::GetVideoInfo));
}

#[test]
fn argument_newer_than_server_is_refused_though_operation_is_not() {
    let c = client(1, 9, 0);
    assert!(c.supports(Operation::GetSongsByGenre));
    let args = vec![text("Rock"), None, None, text("1")];
    assert_eq!(
        c.build_with(Operation::GetSongsByGenre, &args, "A"),
        Err(Error::ArgsVersionMismatch(1, 9, 0, 1, 12, 0))
    );
    assert_eq!(
        c.build(Operation::GetSongsByGenre, &args),
        Err(Error::ArgsVersionMismatch(1, 9, 0, 1, 12, 0))
    );
    assert_eq!(
        client(1, 5, 0).build(Operation::Scrobble, &vec![text("9"), Some(ArgValue::Number(5))]),
        Err(Error::ArgsVersionMismatch(1, 5, 0, 1, 8, 0))
    );
    assert_eq!(
        client(1, 7, 9).build(Operation::GetPlaylists, &vec![text("joe")]),
        Err(Error::ArgsVersionMismatch(1, 7, 9, 1, 8, 0))
    );
}

#[test]
fn argument_newer_than_server_is_fine_when_left_out() {
    let c = client(1, 9, 0);
    assert_eq!(
        c.build_with(Operation::GetSongsByGenre, &vec![text("Rock"), None, None, None], "A").unwrap(),
        "http://host:4040/rest/getSongsByGenre?u=joe&v=1.9.0&f=xml&A&genre=Rock"
    );
    assert_eq!(
        c.build_with(Operation::GetSongsByGenre, &vec![text("Rock")], "A").unwrap(),
        "http://host:4040/rest/getSongsByGenre?u=joe&v=1.9.0&f=xml&A&genre=Rock"
    );
}

#[test]
fn build_query_reports_first_refused_argument() {
    let params = vec![
        Parameter { name: "first_one", since: Version::new(1, 2, 0), required: true },
        Parameter { name: "second", since: Version::new(1, 9, 0), required: false },
        Parameter { name: "third", since: Version::new(1, 8, 0), required: false },
    ];
    let all = vec![text("a"), Some(ArgValue::Number(2)), Some(ArgValue::Flag(true))];
    assert_eq!(
        build_query(Version::new(1, 9, 0), &params, &all).unwrap(),
        "&firstOne=a&second=2&third=true"
    );
    assert_eq!(
        build_query(Version::new(1, 7, 0), &params, &all),
        Err(Error::ArgsVersionMismatch(1, 7, 0, 1, 9, 0))
    );
    assert_eq!(
        build_query(Version::new(1, 7, 0), &params, &vec![text("a"), None, Some(ArgValue::Flag(true))]),
        Err(Error::ArgsVersionMismatch(1, 7, 0, 1, 8, 0))
    );
    assert_eq!(build_query(Version::new(1, 0, 0), &params, &vec![]).unwrap(), "");
    assert_eq!(
        build_query(Version::new(1, 9, 0), &params, &vec![text("a"), None, None, text("extra")]).unwrap(),
        "&firstOne=a"
    );
}

#[test]
fn first_missing_finds_required_parameter_without_value() {
    let params = Operation::CreateInternetRadioStation.info().parameters;
    assert_eq!(first_missing(&params, &vec![text("u"), text("n"), None]), None);
    assert_eq!(first_missing(&params, &vec![text("u"), None, None]), Some(1));
    assert_eq!(first_missing(&params, &vec![]), Some(0));
    assert_eq!(first_missing(&params, &vec![text("u")]), Some(1));
    assert_eq!(first_missing(&Operation::GetIndexes.info().parameters, &vec![]), None);
}

#[test]
fn make_url_gives_both_halves() {
    let c = client(1, 16, 1);
    assert_eq!(
        c.make_url_with("t=abc&s=def"),
        ("http://host:4040/rest/".to_string(), "?u=joe&v=1.16.1&f=xml&t=abc&s=def".to_string())
    );
    let (base, shared) = c.make_url();
    assert_eq!(base, "http://host:4040/rest/");
    assert!(shared.starts_with("?u=joe&v=1.16.1&f=xml&t="));
    let salt = &shared[shared.len() - 10..];
    assert_eq!(shared, format!("?u=joe&v=1.16.1&f=xml&{}", c.credential_with(salt)));
    let (old_base, old_shared) = client(1, 12, 9).make_url();
    assert_eq!(old_base, "http://host:4040/rest/");
    assert_eq!(old_shared, "?u=joe&v=1.12.9&f=xml&p=enc:736573616d65");
}

#[test]
fn build_draws_a_fresh_salt_for_each_call() {
    let c = client(1, 16, 1);
    let first = c.build(Operation::GetLicense, &vec![]).unwrap();
    let second = c.build(Operation::GetLicense, &vec![]).unwrap();
    assert!(first.starts_with("http://host:4040/rest/getLicense?u=joe&v=1.16.1&f=xml&t="));
    assert_ne!(first, second);
    let salt = &first[first.len() - 10..];
    assert_eq!(first, c.build_with(Operation::GetLicense, &vec![], &c.credential_with(salt)).unwrap());
}

#[test]
fn client_is_made_from_the_discovery_response() {
    assert_eq!(SubsonicClient::ping_url("http://host:4040"), "http://host:4040/rest/ping");
    let c = SubsonicClient::new(
        "joe".to_string(),
        "sesame".to_string(),
        "http://host:4040".to_string(),
        "<subsonic-response xmlns=\"http://subsonic.org/restapi\" status=\"ok\" version=\"1.15.0\"/>",
    )
    .unwrap();
    assert_eq!(c.version(), Version::new(1, 15, 0));
    assert_eq!(c.username(), "joe");
    assert_eq!(c.url(), "http://host:4040");
}

#[test]
fn client_is_refused_on_a_bad_discovery_response() {
    let make = |doc: &str| {
        SubsonicClient::new("joe".to_string(), "sesame".to_string(), "http://h".to_string(), doc)
            .map(|c| c.version())
    };
    assert_eq!(make("<subsonic-response status=\"ok\" version=\"1.15\"/>"), Err(Error::VersionParse));
    assert_eq!(make("<subsonic-response status=\"ok\" version=\"1.x.0\"/>"), Err(Error::VersionParse));
    assert_eq!(make("<subsonic-response status=\"ok\" version=\"\"/>"), Err(Error::VersionParse));
    assert_eq!(
        make("<subsonic-response status=\"ok\"/>"),
        Err(Error::Decode(subsonic_client::error::DecodeError::MissingField))
    );
    assert_eq!(
        make("not a document"),
        Err(Error::Decode(subsonic_client::error::DecodeError::Malformed))
    );
    assert_eq!(
        make("<subsonic-response status=\"failed\" version=\"1.16.1\"><error code=\"40\" message=\"Wrong username or password\"/></subsonic-response>"),
        Ok(Version::new(1, 16, 1))
    );
}
