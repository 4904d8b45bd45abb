use repo_lens::api::bounds::{
    BoundsError, Cursor, MaxBytes, MaxHunks, PageSize, WindowSize, MAX_DIFF_BYTES, MAX_DIFF_HUNKS,
};

#[test]
fn test_page_size_bounds() {
    assert!(PageSize::try_from(1).is_ok());
    assert!(PageSize::try_from(1000).is_ok());
    assert!(PageSize::try_from(1001).is_err());
    assert!(PageSize::try_from(0).is_err());
}

#[test]
fn test_window_size_bounds() {
    assert!(WindowSize::try_from(1).is_ok());
    assert!(WindowSize::try_from(10000).is_ok());
    assert!(WindowSize::try_from(10001).is_err());
    assert!(WindowSize::try_from(0).is_err());
}

#[test]
fn test_max_bytes_bounds() {
    assert!(MaxBytes::try_from(1).is_ok());
    assert!(MaxBytes::try_from(MAX_DIFF_BYTES).is_ok());
    assert!(MaxBytes::try_from(MAX_DIFF_BYTES + 1).is_err());
    assert!(MaxBytes::try_from(0).is_err());
}

#[test]
fn test_max_hunks_bounds() {
    assert!(MaxHunks::try_from(1).is_ok());
    assert!(MaxHunks::try_from(MAX_DIFF_HUNKS).is_ok());
    assert!(MaxHunks::try_from(MAX_DIFF_HUNKS + 1).is_err());
    assert!(MaxHunks::try_from(0).is_err());
}

#[test]
fn test_cursor() {
    let cursor = Cursor::initial();
    assert_eq!(cursor.get(), "");

    let cursor = Cursor::from("test".to_string());
    assert_eq!(cursor.get(), "test");
}

#[test]
fn bounds_report_which_side_failed() {
    assert_eq!(PageSize::try_from(0).unwrap_err(), BoundsError::TooSmall);
    assert_eq!(PageSize::try_from(1001).unwrap_err(), BoundsError::TooLarge);
    assert_eq!(WindowSize::try_from(0).unwrap_err(), BoundsError::TooSmall);
    assert_eq!(WindowSize::try_from(10001).unwrap_err(), BoundsError::TooLarge);
    assert_eq!(MaxBytes::try_from(0).unwrap_err(), BoundsError::TooSmall);
    assert_eq!(MaxBytes::try_from(10 * 1024 * 1024 + 1).unwrap_err(), BoundsError::TooLarge);
    assert_eq!(MaxHunks::try_from(0).unwrap_err(), BoundsError::TooSmall);
    assert_eq!(MaxHunks::try_from(10001).unwrap_err(), BoundsError::TooLarge);
}

#[test]
fn bounds_keep_the_accepted_value() {
    assert_eq!(PageSize::try_from(1).unwrap().get(), 1);
    assert_eq!(PageSize::try_from(1000).unwrap().get(), 1000);
    assert_eq!(WindowSize::try_from(10000).unwrap().get(), 10000);
    assert_eq!(MaxBytes::try_from(10 * 1024 * 1024).unwrap().get(), 10485760);
    assert_eq!(MaxHunks::try_from(77).unwrap().get(), 77);
}

#[test]
fn bounds_error_messages() {
    assert_eq!(BoundsError::TooSmall.message(), "value too small");
    assert_eq!(BoundsError::TooLarge.message(), "value too large");
}

#[test]
fn cursor_as_ref_shows_the_text() {
    let cursor = Cursor::from("page-2".to_string());
    let text: &str = cursor.as_ref();
    assert_eq!(text, "page-2");
}
