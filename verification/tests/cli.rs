use hdrview::cli::{exit_status, select_image_source, ImageSource, EXIT_FAILURE, EXIT_SUCCESS};

fn argv(items: &[&str]) -> Vec<String> {
    items.iter().map(|s| s.to_string()).collect()
}

#[test]
fn no_argument_selects_the_bundled_image() {
    assert_eq!(select_image_source(&argv(&["hdrview"])), ImageSource::Bundled);
}

#[test]
fn empty_command_line_selects_the_bundled_image() {
    assert_eq!(select_image_source(&argv(&[])), ImageSource::Bundled);
}

#[test]
fn first_argument_is_the_path() {
    assert_eq!(
        select_image_source(&argv(&["hdrview", "photo.jxr"])),
        ImageSource::File(String::from("photo.jxr"))
    );
}

#[test]
fn later_arguments_are_not_looked_at() {
    assert_eq!(
        select_image_source(&argv(&["hdrview", "a.jxr", "b.jxr", "--flag"])),
        ImageSource::File(String::from("a.jxr"))
    );
}

#[test]
fn an_empty_argument_is_still_a_path() {
    assert_eq!(
        select_image_source(&argv(&["hdrview", ""])),
        ImageSource::File(String::new())
    );
}

#[test]
fn a_normal_close_exits_with_zero() {
    assert_eq!(exit_status(true), 0);
    assert_eq!(exit_status(true), EXIT_SUCCESS);
}

#[test]
fn a_failed_setup_exits_with_one() {
    assert_eq!(exit_status(false), 1);
    assert_eq!(exit_status(false), EXIT_FAILURE);
}
