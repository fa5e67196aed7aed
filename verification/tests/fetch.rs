use content_archiver::error::ArchiveError;
use content_archiver::fetch::{check_reply, content_type, FetchReply, FetchedContent, STATUS_OK};

fn reply(status: u16, length: Option<u64>, kind: Option<&[u8]>) -> FetchReply {
    FetchReply { status, content_length: length, content_type: kind.map(|raw| raw.to_vec()) }
}

#[test]
fn status_200_is_the_only_success() {
    assert_eq!(STATUS_OK, 200);
    assert!(check_reply(&reply(200, None, None)).is_ok());
    for status in [100, 199, 201, 204, 206, 301, 304, 400, 401, 403, 404, 500, 503, 0, 65535] {
        assert_eq!(
            check_reply(&reply(status, Some(3), Some(b"text/plain"))),
            Err(ArchiveError::ContentFetchFailed)
        );
    }
}

#[test]
fn source_not_found_is_a_fetch_failure() {
    assert_eq!(check_reply(&reply(404, None, None)), Err(ArchiveError::ContentFetchFailed));
}

#[test]
fn length_and_type_pass_through() {
    assert_eq!(
        check_reply(&reply(200, Some(1024), Some(b"image/png"))),
        Ok(FetchedContent {
            content_length: Some(1024),
            content_type: Some("image/png".to_string()),
        })
    );
}

#[test]
fn length_and_type_are_optional() {
    assert_eq!(
        check_reply(&reply(200, None, None)),
        Ok(FetchedContent { content_length: None, content_type: None })
    );
    assert_eq!(
        check_reply(&reply(200, Some(0), None)),
        Ok(FetchedContent { content_length: Some(0), content_type: None })
    );
    assert_eq!(
        check_reply(&reply(200, None, Some(b"text/html; charset=utf-8"))),
        Ok(FetchedContent {
            content_length: None,
            content_type: Some("text/html; charset=utf-8".to_string()),
        })
    );
}

#[test]
fn the_largest_length_passes_through() {
    assert_eq!(
        check_reply(&reply(200, Some(u64::MAX), None)),
        Ok(FetchedContent { content_length: Some(u64::MAX), content_type: None })
    );
}

#[test]
fn an_unreadable_type_is_dropped_and_the_fetch_still_succeeds() {
    assert_eq!(
        check_reply(&reply(200, Some(7), Some(b"image/\xffpng"))),
        Ok(FetchedContent { content_length: Some(7), content_type: None })
    );
}

#[test]
fn header_text_is_the_bytes_read_as_ascii() {
    assert_eq!(content_type(&Some(b"image/png".to_vec())), Some("image/png".to_string()));
    assert_eq!(content_type(&Some(b"a b\tc~".to_vec())), Some("a b\tc~".to_string()));
    assert_eq!(content_type(&Some(Vec::new())), Some(String::new()));
    assert_eq!(content_type(&None), None);
}

#[test]
fn header_text_refuses_what_is_not_visible_ascii() {
    assert_eq!(content_type(&Some(vec![0x7f])), None);
    assert_eq!(content_type(&Some(vec![0x1f])), None);
    assert_eq!(content_type(&Some(vec![0x00])), None);
    assert_eq!(content_type(&Some(b"text\n".to_vec())), None);
    assert_eq!(content_type(&Some(b"text\r".to_vec())), None);
    assert_eq!(content_type(&Some(vec![0x80])), None);
    assert_eq!(content_type(&Some("café".as_bytes().to_vec())), None);
    assert_eq!(content_type(&Some(vec![b'a', 0xff, b'b'])), None);
}

#[test]
fn header_text_bounds_of_the_visible_range() {
    assert_eq!(content_type(&Some(vec![32])), Some(" ".to_string()));
    assert_eq!(content_type(&Some(vec![126])), Some("~".to_string()));
    assert_eq!(content_type(&Some(vec![9])), Some("\t".to_string()));
    assert_eq!(content_type(&Some(vec![31])), None);
    assert_eq!(content_type(&Some(vec![127])), None);
    assert_eq!(content_type(&Some(vec![10])), None);
    assert_eq!(content_type(&Some(vec![8])), None);
}
