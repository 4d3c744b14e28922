use moonlight::app_model::format_window_title;
use moonlight::connection::VideoSetup;
use moonlight::licenses::{display_lines, notice, wrap_text, NOTICE_COUNT};
use moonlight::streaming::{
    check_first_frame, check_video_setup, connecting_message, stream_outcome, streaming_message,
    VideoProgress,
};
use moonlight::video::{fit_size, is_annex_b};

const APACHE_EXCERPT: &str = "
                                 Apache License
                           Version 2.0, January 2004
                        http://www.apache.org/licenses/

   TERMS AND CONDITIONS FOR USE, REPRODUCTION, AND DISTRIBUTION

   1. Definitions.

      \"License\" shall mean the terms and conditions for use, reproduction,
      and distribution as defined by Sections 1 through 9 of this document.

      \"Licensor\" shall mean the copyright owner or entity authorized by
      the copyright owner that is granting the License.

      \"Legal Entity\" shall mean the union of the acting entity and all
      other entities that control, are controlled by, or are under common
      control with that entity. For the purposes of this definition,
      \"control\" means (i) the power, direct or indirect, to cause the
      direction or management of such entity, whether by contract or
      otherwise, or (ii) ownership of fifty percent (50%) or more of the
      outstanding shares, or (iii) beneficial ownership of such entity.

      \"You\" (or \"Your\") shall mean an individual or Legal Entity
      exercising permissions granted by this License.
";

#[test]
fn every_notice_contains_license_text() {
    assert_eq!(NOTICE_COUNT, 9);
    assert!((0..NOTICE_COUNT).all(|index| {
        let entry = notice(index);
        !entry.title.is_empty() && !entry.license.is_empty() && !entry.components.is_empty()
    }));
}

#[test]
fn long_license_paragraphs_are_wrapped_for_the_viewport() {
    let lines = display_lines(3, 48, &[APACHE_EXCERPT]);
    assert!(lines.len() > 10);
    assert!(lines
        .iter()
        .all(|line| { line.chars().count() <= 48 || !line.chars().any(char::is_whitespace) }));
}

#[test]
fn license_pages_open_with_the_notice_header() {
    let lines = display_lines(1, 40, &["first", "second text"]);
    assert_eq!(
        lines,
        vec![
            "Opus",
            "libopus",
            "License: BSD-3-Clause",
            "",
            "first",
            "",
            "ADDITIONAL LICENSE OR NOTICE",
            "",
            "second text",
        ]
    );
    assert_eq!(notice(42).title, "Moonlight Scarlet");
}

#[test]
fn wrapping_keeps_blank_lines_and_long_words() {
    assert_eq!(
        wrap_text("one two three\n\nabcdefghij", 7),
        vec!["one two", "three", "", "abcdefghij"]
    );
    assert_eq!(wrap_text("a b", 0), vec!["a", "b"]);
}

#[test]
fn recognizes_three_and_four_byte_annex_b_start_codes() {
    assert!(is_annex_b(&[0, 0, 1, 0x67]));
    assert!(is_annex_b(&[0, 0, 0, 1, 0x67]));
    assert!(!is_annex_b(&[0, 0, 2, 0x67]));
}

#[test]
fn video_fit_preserves_aspect_ratio() {
    assert_eq!(fit_size(1920, 1080, 960, 660), (960, 540));
    assert_eq!(fit_size(1920, 1080, 800, 800), (800, 450));
    assert_eq!(fit_size(1080, 1920, 1280, 720), (405, 720));
    assert_eq!(fit_size(1920, 1080, 1280, 720), (1280, 720));
}

#[test]
fn minimized_video_has_no_draw_extent() {
    assert_eq!(fit_size(1920, 1080, 0, 720), (0, 0));
    assert_eq!(fit_size(1920, 1080, 1280, 0), (0, 0));
    assert_eq!(fit_size(0, 0, 1280, 720), (0, 0));
}

#[test]
fn extreme_aspect_ratios_keep_one_pixel() {
    assert_eq!(fit_size(u32::MAX, 1, 10, 10), (10, 1));
    assert_eq!(fit_size(1, u32::MAX, 10, 10), (1, 10));
}

#[test]
fn window_title_identifies_the_running_application() {
    assert_eq!(format_window_title(None), "Moonlight");
    assert_eq!(format_window_title(Some("Desktop")), "Desktop - Moonlight");
}

#[test]
fn stream_messages_describe_progress() {
    let setup = VideoSetup::from_raw(1, 1280, 720, 60).expect("setup");
    assert_eq!(streaming_message(setup), "Streaming 1280x720 at 60 FPS");
    assert_eq!(check_video_setup(Some(setup)), Ok(setup));
    assert!(check_video_setup(None).is_err());
    let hevc = VideoSetup::from_raw(0x100, 1280, 720, 60).expect("setup");
    assert!(check_video_setup(Some(hevc)).unwrap_err().contains("0x100"));
    assert!(connecting_message("Desktop").contains("Desktop"));
    assert_eq!(stream_outcome(None), Ok(()));
    assert_eq!(stream_outcome(Some(0)), Ok(()));
    assert_eq!(
        stream_outcome(Some(-5)),
        Err(String::from("stream terminated with error -5"))
    );
    assert!(check_first_frame(&[0, 0, 1, 0x65]).is_ok());
    assert!(check_first_frame(&[1, 2, 3]).is_err());
}

#[test]
fn audio_errors_are_reported_once_per_stream() {
    let mut progress = VideoProgress::new();
    assert!(progress.at_first_frame());
    progress.frame_consumed();
    assert!(!progress.at_first_frame());
    assert_eq!(progress.audio_report(None), None);
    assert_eq!(
        progress.audio_report(Some(String::from("no device"))),
        Some(String::from("Audio disabled: no device"))
    );
    assert_eq!(progress.audio_report(Some(String::from("again"))), None);
}
