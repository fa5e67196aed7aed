use content_archiver::clock::Timestamp;
use content_archiver::context::ServiceContext;
use content_archiver::fetch::FetchedContent;
use content_archiver::request::ArchiveRequest;
use content_archiver::upload::{plan_upload, UploadPlan};

fn context() -> ServiceContext {
    ServiceContext::new("archive".to_string(), "s3cret".to_string(), "https://cdn.example.com")
        .unwrap()
}

fn request(public: bool) -> ArchiveRequest {
    ArchiveRequest {
        source: "https://origin.example.org/pictures/a.png?size=full".to_string(),
        suffix: "images/a.png".to_string(),
        public,
    }
}

fn content() -> FetchedContent {
    FetchedContent { content_length: Some(1024), content_type: Some("image/png".to_string()) }
}

#[test]
fn the_plan_is_the_put_of_the_fetched_content() {
    let at = Timestamp::new(1_431_648_000, 0).unwrap();
    assert_eq!(
        plan_upload(&context(), &request(true), &content(), &at),
        UploadPlan {
            bucket: "archive".to_string(),
            key: "images/a.png".to_string(),
            acl: "public-read".to_string(),
            cache_control: "private, max-age=604800".to_string(),
            content_length: Some(1024),
            content_type: Some("image/png".to_string()),
            metadata: vec![
                (
                    "source".to_string(),
                    "https://origin.example.org/pictures/a.png?size=full".to_string()
                ),
                ("fetched-at".to_string(), "2015-05-15T00:00:00+00:00".to_string()),
            ],
        }
    );
}

#[test]
fn length_and_type_stay_unset_where_none_was_observed() {
    let at = Timestamp::new(0, 0).unwrap();
    let bare = FetchedContent { content_length: None, content_type: None };
    let plan = plan_upload(&context(), &request(true), &bare, &at);
    assert_eq!(plan.content_length, None);
    assert_eq!(plan.content_type, None);
    assert_eq!(plan.acl, "public-read");
    assert_eq!(plan.cache_control, "private, max-age=604800");
}

#[test]
fn the_metadata_holds_the_source_and_the_archive_time_and_nothing_else() {
    let at = Timestamp::new(1_700_000_000, 250_000_000).unwrap();
    let plan = plan_upload(&context(), &request(true), &content(), &at);
    assert_eq!(plan.metadata.len(), 2);
    assert_eq!(plan.metadata[0].0, "source");
    assert_eq!(plan.metadata[0].1, request(true).source);
    assert_eq!(plan.metadata[1].0, "fetched-at");
    assert_eq!(plan.metadata[1].1, "2023-11-14T22:13:20.250+00:00");
    assert_ne!(plan.metadata[0].0, plan.metadata[1].0);
}

#[test]
fn the_archive_time_in_the_metadata_is_rfc_3339() {
    let now = chrono::Utc::now();
    let at = Timestamp::new(now.timestamp(), now.timestamp_subsec_nanos()).unwrap();
    let plan = plan_upload(&context(), &request(true), &content(), &at);
    let parsed = chrono::DateTime::parse_from_rfc3339(&plan.metadata[1].1).unwrap();
    assert_eq!(parsed, now);
    assert_eq!(parsed.timestamp(), at.seconds());
    assert_eq!(parsed.timestamp_subsec_nanos(), at.nanos());
}

#[test]
fn the_public_flag_changes_nothing() {
    let at = Timestamp::new(1_431_648_000, 0).unwrap();
    let open = plan_upload(&context(), &request(true), &content(), &at);
    let closed = plan_upload(&context(), &request(false), &content(), &at);
    assert_eq!(open, closed);
    assert_eq!(closed.acl, "public-read");
}

#[test]
fn the_key_and_the_source_are_used_verbatim() {
    let at = Timestamp::new(0, 0).unwrap();
    let odd = ArchiveRequest {
        source: " not even a url ".to_string(),
        suffix: "../..//a b/✓".to_string(),
        public: false,
    };
    let plan = plan_upload(&context(), &odd, &content(), &at);
    assert_eq!(plan.key, "../..//a b/✓");
    assert_eq!(plan.metadata[0].1, " not even a url ");
    assert_eq!(plan.bucket, "archive");
}
