use kitty_media::format::{AudioCodec, AudioFormat, Container, Format, Quality, VideoCodec, VideoFormat};

#[test]
fn default_format_selector() {
    assert_eq!(
        Format::default().to_string(),
        "bestvideo[ext=mp4][vcodec^=avc]+bestaudio[ext=m4a]"
    );
}

#[test]
fn custom_format_selectors() {
    let video = VideoFormat { container: None, codec: Some(VideoCodec::Avc), quality: Quality::Best };
    assert_eq!(video.to_string(), "bestvideo[vcodec^=avc]");
    let video = VideoFormat { container: Some(Container::Mp4), codec: None, quality: Quality::Best };
    assert_eq!(video.to_string(), "bestvideo[ext=mp4]");
    let audio = AudioFormat { codec: None, quality: Quality::Best };
    assert_eq!(audio.to_string(), "bestaudio");
    let audio = AudioFormat { codec: Some(AudioCodec::Aac), quality: Quality::Best };
    let format = Format::Separate { video, audio };
    assert_eq!(format.to_string(), "bestvideo[ext=mp4]+bestaudio[ext=m4a]");
}

#[test]
fn codec_names() {
    assert_eq!(Container::default().to_string(), "mp4");
    assert_eq!(VideoCodec::default().to_string(), "avc");
    assert_eq!(AudioCodec::default().to_string(), "m4a");
    assert_eq!(Quality::default().to_string(), "best");
}
