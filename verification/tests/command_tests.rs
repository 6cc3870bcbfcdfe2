use kitty_media::command::{
    AudioFormat, CommandLine, ContentUrl, ContentUrlError, Format, RemoteComponents,
    RemoteComponentsError, VideoFormat, YtDlp,
};
use kitty_media::format::{AudioCodec, Container, Quality, VideoCodec};
use url::Url;

fn parsed(s: &str) -> Url {
    Url::parse(s).unwrap()
}

#[test]
fn command_line_default_format() {
    assert_eq!(Format::default().to_string(), "bestvideo+bestaudio");
    let video = VideoFormat { container: Some(Container::Mp4), codec: Some(VideoCodec::Avc), quality: Quality::Best };
    let audio = AudioFormat { codec: Some(AudioCodec::Aac), quality: Quality::Best };
    assert_eq!(
        Format::Separate { video, audio }.to_string(),
        "bestvideo[ext=mp4][vcodec^=avc]+bestaudio[ext=m4a]"
    );
    assert_eq!(VideoFormat::default().to_string(), "bestvideo");
    assert_eq!(AudioFormat::default().to_string(), "bestaudio");
}

#[test]
fn command_line_remote_components() {
    assert_eq!(RemoteComponents::from_str("ejs:github"), Ok(RemoteComponents::GitHub));
    assert_eq!(RemoteComponents::from_str("ejs:npm"), Ok(RemoteComponents::Npm));
    assert_eq!(RemoteComponents::from_str("none"), Ok(RemoteComponents::Disabled));
    assert_eq!(RemoteComponents::from_str("npm"), Err(RemoteComponentsError::InvalidOption));
    assert_eq!(
        RemoteComponents::from_str("ejs:github,ejs:npm"),
        Ok(RemoteComponents::GitHubAndNpm)
    );
    assert_eq!(RemoteComponents::from_str("ejs:github;ejs:npm"), Err(RemoteComponentsError::InvalidOption));
    assert_eq!(RemoteComponents::GitHubAndNpm.as_arg(), Some("ejs:github,ejs:npm".to_string()));
    assert_eq!(RemoteComponents::GitHub.as_arg(), Some("ejs:github".to_string()));
    assert_eq!(RemoteComponents::Disabled.as_arg(), None);
    assert_eq!(
        RemoteComponentsError::InvalidOption.to_string(),
        "The provided string does not match any valid remote component options."
    );
}

#[test]
fn plain_command() {
    let y = YtDlp::new("yt-dlp".to_string(), RemoteComponents::Disabled, None);
    assert_eq!(y.create_command(), CommandLine { program: "yt-dlp".to_string(), args: vec![] });
}

#[test]
fn command_with_cookies_and_components() {
    let y = YtDlp::new(
        "/usr/bin/yt-dlp".to_string(),
        RemoteComponents::Npm,
        Some("/tmp/cookies.txt".to_string()),
    );
    let c = y.content_url_command("https://youtube.com/watch?v=x", Format::default());
    assert_eq!(c.program, "/usr/bin/yt-dlp");
    assert_eq!(
        c.args,
        vec![
            "--cookies",
            "/tmp/cookies.txt",
            "--remote-components",
            "ejs:npm",
            "--format",
            "bestvideo+bestaudio",
            "--get-url",
            "https://youtube.com/watch?v=x",
        ]
    );
}

#[test]
fn content_url_single_and_separate() {
    assert_eq!(
        ContentUrl::from_str("https://a.example/x\n").unwrap(),
        ContentUrl::Single(parsed("https://a.example/x"))
    );
    assert_eq!(
        " https://v.example/1 \r\nhttps://a.example/2\n\n".parse::<ContentUrl>().unwrap(),
        ContentUrl::Separate {
            video_url: parsed("https://v.example/1"),
            audio_url: parsed("https://a.example/2"),
        }
    );
}

#[test]
fn content_url_errors() {
    assert_eq!(ContentUrl::from_str(""), Err(ContentUrlError::InvalidFormat));
    assert_eq!(
        ContentUrl::from_str("https://v.example/1\nhttps://a.example/2\nhttps://x.example/3"),
        Err(ContentUrlError::InvalidFormat)
    );
    assert_eq!(
        ContentUrl::from_str("not a url\nhttps://a.example/2"),
        Err(ContentUrlError::UrlParse(url::ParseError::RelativeUrlWithoutBase))
    );
    assert_eq!(
        ContentUrl::from_str("https://v.example/1\n"),
        Ok(ContentUrl::Single(parsed("https://v.example/1")))
    );
    assert_eq!(
        ContentUrl::from_str("https://v.example/1\nhttp://[::1\n"),
        Err(ContentUrlError::UrlParse(url::ParseError::InvalidIpv6Address))
    );
}

#[test]
fn content_url_from_parsed_lines() {
    let v = parsed("https://v.example/1");
    let a = parsed("https://a.example/2");
    assert_eq!(
        ContentUrl::from_parsed(Ok(v.clone()), None, false),
        Ok(ContentUrl::Single(v.clone()))
    );
    assert_eq!(
        ContentUrl::from_parsed(Ok(v.clone()), Some(Ok(a.clone())), false),
        Ok(ContentUrl::Separate { video_url: v.clone(), audio_url: a.clone() })
    );
    assert_eq!(
        ContentUrl::from_parsed(Ok(v.clone()), Some(Ok(a.clone())), true),
        Err(ContentUrlError::InvalidFormat)
    );
    assert_eq!(
        ContentUrl::from_parsed(Err(url::ParseError::EmptyHost), Some(Ok(a)), false),
        Err(ContentUrlError::UrlParse(url::ParseError::EmptyHost))
    );
    assert_eq!(
        ContentUrl::from_parsed(Ok(v), Some(Err(url::ParseError::InvalidPort)), false),
        Err(ContentUrlError::UrlParse(url::ParseError::InvalidPort))
    );
}
