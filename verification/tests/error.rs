use content_archiver::error::{ArchiveError, ArchiveFailure, ErrorInfo, FAILURE_STATUS};

#[test]
fn each_kind_has_its_tag() {
    assert_eq!(ArchiveError::ContentFetchFailed.name(), "ContentFetchFailed");
    assert_eq!(ArchiveError::ContentUploadFailed.name(), "ContentUploadFailed");
    assert_eq!(ArchiveError::InvalidConfiguration.name(), "InvalidConfiguration");
}

#[test]
fn the_tags_differ() {
    let kinds = [
        ArchiveError::ContentFetchFailed,
        ArchiveError::ContentUploadFailed,
        ArchiveError::InvalidConfiguration,
    ];
    for a in kinds {
        for b in kinds {
            assert_eq!(a.name() == b.name(), a == b);
        }
    }
}

#[test]
fn a_failure_wraps_its_kind() {
    assert_eq!(
        ArchiveFailure::from(ArchiveError::ContentFetchFailed),
        ArchiveFailure { inner: ErrorInfo { error: ArchiveError::ContentFetchFailed } }
    );
    assert_eq!(
        ArchiveFailure::from(ArchiveError::ContentUploadFailed).inner.error,
        ArchiveError::ContentUploadFailed
    );
    let failure: ArchiveFailure = ArchiveError::InvalidConfiguration.into();
    assert_eq!(failure.inner.error, ArchiveError::InvalidConfiguration);
}

#[test]
fn every_failure_is_answered_with_400() {
    assert_eq!(FAILURE_STATUS, 400);
    assert_eq!(ArchiveFailure::from(ArchiveError::ContentFetchFailed).status(), 400);
    assert_eq!(ArchiveFailure::from(ArchiveError::ContentUploadFailed).status(), 400);
    assert_eq!(ArchiveFailure::from(ArchiveError::InvalidConfiguration).status(), 400);
}
