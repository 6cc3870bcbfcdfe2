use kitty_media::format::Format;
use kitty_media::remote_components::RemoteComponents;
use kitty_media::ytdlp::{OptionValue, YtDlp};

#[test]
fn info_request_without_settings() {
    let y = YtDlp::new(RemoteComponents::Disabled, None);
    let r = y.info_request("https://youtube.com/watch?v=abc", Format::default());
    assert_eq!(r.page, "https://youtube.com/watch?v=abc");
    assert!(!r.download);
    assert_eq!(
        r.options,
        vec![
            (
                "format".to_string(),
                OptionValue::Text("bestvideo[ext=mp4][vcodec^=avc]+bestaudio[ext=m4a]".to_string())
            ),
            ("quiet".to_string(), OptionValue::Flag(true)),
        ]
    );
}

#[test]
fn info_request_with_cookies_and_components() {
    let y = YtDlp::new(RemoteComponents::EjsGitHub, Some("cookies.txt".to_string()));
    let r = y.info_request("u", Format::default());
    assert_eq!(r.options.len(), 4);
    assert_eq!(r.options[2], ("cookiefile".to_string(), OptionValue::Text("cookies.txt".to_string())));
    assert_eq!(
        r.options[3],
        ("remote_components".to_string(), OptionValue::Text("ejs:github".to_string()))
    );
}
