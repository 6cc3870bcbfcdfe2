use kitty_media::format::Format;
use kitty_media::media_url::{media_url_of, MediaUrl, MediaUrlError, RequestedUrl};
use pyo3::exceptions::PyValueError;

fn separate(video: &str, audio: &str) -> MediaUrl {
    MediaUrl::Separate { video_url: video.to_string(), audio_url: audio.to_string() }
}

#[test]
fn stdout_with_two_urls() {
    let r = MediaUrl::from_stdout("https://v.example/1\nhttps://a.example/2\n", Format::default());
    assert_eq!(r.unwrap(), separate("https://v.example/1", "https://a.example/2"));
}

#[test]
fn stdout_lines_are_trimmed_and_crlf_is_a_line_end() {
    let r = MediaUrl::from_stdout("  v \r\n\ta\t\r\n", Format::default());
    assert_eq!(r.unwrap(), separate("v", "a"));
}

#[test]
fn stdout_third_line_must_be_blank() {
    assert!(MediaUrl::from_stdout("v\na\n   \n", Format::default()).is_ok());
    assert!(MediaUrl::from_stdout("v\na\n\nignored", Format::default()).is_ok());
    assert!(matches!(
        MediaUrl::from_stdout("v\na\nx\n", Format::default()),
        Err(MediaUrlError::InvalidFormat)
    ));
}

#[test]
fn stdout_needs_two_non_blank_lines() {
    for s in ["", "\n", "v", "v\n", " \na", "v\n \n", "v\r"] {
        assert!(
            matches!(MediaUrl::from_stdout(s, Format::default()), Err(MediaUrlError::InvalidFormat)),
            "{s:?}"
        );
    }
}

#[test]
fn python_list_with_two_urls() {
    let list = vec![RequestedUrl::Url("v".to_string()), RequestedUrl::Url("a".to_string())];
    assert_eq!(MediaUrl::from_python_list(list, Format::default()).unwrap(), separate("v", "a"));
}

#[test]
fn python_list_shape_errors() {
    let cases = vec![
        vec![],
        vec![RequestedUrl::Url("v".to_string())],
        vec![
            RequestedUrl::Url("v".to_string()),
            RequestedUrl::Url("a".to_string()),
            RequestedUrl::Url("x".to_string()),
        ],
        vec![RequestedUrl::Missing, RequestedUrl::Url("a".to_string())],
        vec![RequestedUrl::Url("v".to_string()), RequestedUrl::Missing],
        vec![RequestedUrl::Url(String::new()), RequestedUrl::Url("a".to_string())],
        vec![RequestedUrl::Url("v".to_string()), RequestedUrl::Url(String::new())],
    ];
    for list in cases {
        assert!(matches!(
            MediaUrl::from_python_list(list, Format::default()),
            Err(MediaUrlError::InvalidFormat)
        ));
    }
}

#[test]
fn python_list_passes_python_errors_on() {
    let list = vec![
        RequestedUrl::Failed(PyValueError::new_err("not a dict")),
        RequestedUrl::Missing,
    ];
    assert!(matches!(
        MediaUrl::from_python_list(list, Format::default()),
        Err(MediaUrlError::Python(_))
    ));
    let list = vec![
        RequestedUrl::Missing,
        RequestedUrl::Failed(PyValueError::new_err("not a dict")),
    ];
    assert!(matches!(
        MediaUrl::from_python_list(list, Format::default()),
        Err(MediaUrlError::InvalidFormat)
    ));
    let list = vec![
        RequestedUrl::Url("v".to_string()),
        RequestedUrl::Failed(PyValueError::new_err("not a string")),
    ];
    assert!(matches!(
        MediaUrl::from_python_list(list, Format::default()),
        Err(MediaUrlError::Python(_))
    ));
}

#[test]
fn answer_without_requested_formats() {
    let r = media_url_of(None, Format::default());
    assert!(matches!(r, Err(MediaUrlError::InvalidFormat)));
    let list = vec![RequestedUrl::Url("v".to_string()), RequestedUrl::Url("a".to_string())];
    assert_eq!(media_url_of(Some(list), Format::default()).unwrap(), separate("v", "a"));
    let short = vec![RequestedUrl::Url("v".to_string())];
    assert!(matches!(media_url_of(Some(short), Format::default()), Err(MediaUrlError::InvalidFormat)));
}
