use audiobookshelf_client::params::{
    filter_parameter, playback_params, DeviceInfoParams, LibraryItemFilter, LibraryItemParams,
    PlayLibraryItemParams,
};
use audiobookshelf_client::schema::{Id, Progress};

fn pair(name: &'static str, value: &str) -> (&'static str, String) {
    (name, String::from(value))
}

#[test]
fn default_query_holds_the_order_alone() {
    assert_eq!(LibraryItemParams::default().build_query(), vec![pair("desc", "false")]);
}

#[test]
fn limit_brings_the_page_along() {
    let params = LibraryItemParams { limit: 25, page: 3, desc: true, ..Default::default() };
    assert_eq!(
        params.build_query(),
        vec![pair("limit", "25"), pair("page", "3"), pair("desc", "true")]
    );
}

#[test]
fn page_is_left_out_without_a_limit() {
    let params = LibraryItemParams { limit: 0, page: 3, ..Default::default() };
    assert_eq!(params.build_query(), vec![pair("desc", "false")]);
}

#[test]
fn large_numbers_are_written_in_full() {
    let params = LibraryItemParams { limit: 1_000_000, page: 0, ..Default::default() };
    assert_eq!(
        params.build_query(),
        vec![pair("limit", "1000000"), pair("page", "0"), pair("desc", "false")]
    );
}

#[test]
fn sort_field_is_handed_on() {
    let params = LibraryItemParams {
        sort: Some(String::from("media.metadata.title")),
        ..Default::default()
    };
    assert_eq!(
        params.build_query(),
        vec![pair("sort", "media.metadata.title"), pair("desc", "false")]
    );
}

#[test]
fn filters_are_encoded_and_come_in_order() {
    let params = LibraryItemParams {
        filter: LibraryItemFilter {
            authors: vec![Id::new(String::from("aut_1")), Id::new(String::from("aut_2"))],
            series: vec![Id::new(String::from("ser_9"))],
            tags: vec![String::from("sci-fi")],
            genres: vec![String::from("Fantasy"), String::from("")],
            progress: Some(Progress::InProgress),
        },
        ..Default::default()
    };
    assert_eq!(
        params.build_query(),
        vec![
            pair("desc", "false"),
            pair("filter", "authors.YXV0XzE="),
            pair("filter", "authors.YXV0XzI="),
            pair("filter", "series.c2VyXzk="),
            pair("filter", "tags.c2NpLWZp"),
            pair("filter", "genres.RmFudGFzeQ=="),
            pair("filter", "genres."),
            pair("filter", "progress.aW4tcHJvZ3Jlc3M="),
        ]
    );
}

#[test]
fn every_progress_has_its_filter() {
    let query = |progress: Progress| {
        LibraryItemParams {
            filter: LibraryItemFilter { progress: Some(progress), ..Default::default() },
            ..Default::default()
        }
        .build_query()
    };
    assert_eq!(query(Progress::Finished)[1], pair("filter", "progress.ZmluaXNoZWQ="));
    assert_eq!(query(Progress::NotStarted)[1], pair("filter", "progress.bm90LXN0YXJ0ZWQ="));
    assert_eq!(query(Progress::NotFinished)[1], pair("filter", "progress.bm90LWZpbmlzaGVk"));
}

#[test]
fn defaults_are_empty() {
    let filter = LibraryItemFilter::default();
    assert!(filter.authors.is_empty() && filter.series.is_empty());
    assert!(filter.tags.is_empty() && filter.genres.is_empty());
    assert_eq!(filter.progress, None);
    let device = DeviceInfoParams::default();
    assert_eq!(device.client_name, None);
    assert_eq!(device.sdk_version, None);
    let play = PlayLibraryItemParams::default();
    assert!(!play.force_direct_play && !play.force_transcode);
    assert!(play.supported_mime_types.is_empty());
    assert_eq!(play.media_player, None);
}

#[test]
fn player_names_itself_and_what_it_decodes() {
    let params = playback_params();
    assert_eq!(params.device_info.client_name.as_deref(), Some("hukumkas_client"));
    assert_eq!(params.device_info.device_id, None);
    assert_eq!(params.device_info.client_version, None);
    assert_eq!(params.device_info.manufacturer, None);
    assert_eq!(params.device_info.model, None);
    assert_eq!(params.device_info.sdk_version, None);
    assert!(!params.force_direct_play);
    assert!(!params.force_transcode);
    assert_eq!(params.media_player, None);
    assert_eq!(params.supported_mime_types, vec!["audio/flac", "audio/mpeg", "audio/ogg"]);
}

#[test]
fn filter_parameter_joins_name_and_value_with_a_dot() {
    assert_eq!(filter_parameter("authors", "YXV0XzE="), "authors.YXV0XzE=");
    assert_eq!(filter_parameter("", ""), ".");
}
