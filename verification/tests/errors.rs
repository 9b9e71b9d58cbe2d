use tabula::error::OsFailure;
use tabula::error::TempFileError;
use tabula::error::EMFILE;
use tabula::error::ENFILE;
use tabula::error::ENOMEM;
use tabula::error::ENOSPC;

#[test]
fn error_numbers_have_their_usual_values() {
    assert_eq!(ENOMEM, 12);
    assert_eq!(ENFILE, 23);
    assert_eq!(EMFILE, 24);
    assert_eq!(ENOSPC, 28);
}

#[test]
fn error_numbers_are_read_as_failures() {
    assert_eq!(OsFailure::from_errno(24), OsFailure::DescriptorLimit);
    assert_eq!(OsFailure::from_errno(23), OsFailure::DescriptorLimit);
    assert_eq!(OsFailure::from_errno(12), OsFailure::OutOfMemory);
    assert_eq!(OsFailure::from_errno(28), OsFailure::StorageFull);
    assert_eq!(OsFailure::from_errno(22), OsFailure::Other);
    assert_eq!(OsFailure::from_errno(14), OsFailure::Other);
    assert_eq!(OsFailure::from_errno(0), OsFailure::Other);
    assert_eq!(OsFailure::from_errno(-1), OsFailure::Other);
    assert_eq!(OsFailure::from_errno(i32::MAX), OsFailure::Other);
    assert_eq!(OsFailure::from_errno(i32::MIN), OsFailure::Other);
}

#[test]
fn every_failure_but_the_unknown_one_is_exhaustion() {
    assert!(OsFailure::DescriptorLimit.is_exhaustion());
    assert!(OsFailure::OutOfMemory.is_exhaustion());
    assert!(OsFailure::StorageFull.is_exhaustion());
    assert!(OsFailure::QuotaExceeded.is_exhaustion());
    assert!(!OsFailure::Other.is_exhaustion());
}

#[test]
fn failures_map_to_error_kinds() {
    assert_eq!(OsFailure::DescriptorLimit.to_error(), TempFileError::ResourceExhausted);
    assert_eq!(OsFailure::OutOfMemory.to_error(), TempFileError::ResourceExhausted);
    assert_eq!(OsFailure::StorageFull.to_error(), TempFileError::ResourceExhausted);
    assert_eq!(OsFailure::QuotaExceeded.to_error(), TempFileError::ResourceExhausted);
    assert_eq!(OsFailure::Other.to_error(), TempFileError::IoFailure);
}

#[test]
fn errors_say_what_went_wrong() {
    assert_eq!(
        TempFileError::InvalidName.message(),
        "the name cannot be used for a temporary file"
    );
    assert_eq!(
        TempFileError::ResourceExhausted.message(),
        "no descriptor, memory or storage is left"
    );
    assert_eq!(TempFileError::IoFailure.message(), "the operating system reported a failure");
}

#[test]
fn error_number_refines_an_unknown_failure_only() {
    assert_eq!(OsFailure::Other.or_errno(Some(24)), OsFailure::DescriptorLimit);
    assert_eq!(OsFailure::Other.or_errno(Some(12)), OsFailure::OutOfMemory);
    assert_eq!(OsFailure::Other.or_errno(Some(28)), OsFailure::StorageFull);
    assert_eq!(OsFailure::Other.or_errno(Some(22)), OsFailure::Other);
    assert_eq!(OsFailure::Other.or_errno(None), OsFailure::Other);
    assert_eq!(OsFailure::QuotaExceeded.or_errno(Some(24)), OsFailure::QuotaExceeded);
    assert_eq!(OsFailure::StorageFull.or_errno(Some(22)), OsFailure::StorageFull);
    assert_eq!(OsFailure::OutOfMemory.or_errno(None), OsFailure::OutOfMemory);
}
