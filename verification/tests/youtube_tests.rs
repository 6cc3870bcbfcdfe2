use kitty_media::youtube::{YouTubeIdExtractor, YoutubeQuery};
use regex::Regex;

fn query(v: Option<&str>) -> YoutubeQuery {
    YoutubeQuery { v: v.map(|s| s.to_string()) }
}

#[test]
fn bare_ids() {
    let e = YouTubeIdExtractor::new();
    assert_eq!(e.extract_id("dQw4w9WgXcQ", &query(None)), Some("dQw4w9WgXcQ".to_string()));
    assert_eq!(e.extract_id("a-b_c-d_e-f", &query(Some("x"))), Some("a-b_c-d_e-f".to_string()));
    assert_eq!(e.extract_id("dQw4w9WgXc", &query(None)), None);
    assert_eq!(e.extract_id("dQw4w9WgXcQQ", &query(None)), None);
    assert_eq!(e.extract_id("dQw4w9WgXc!", &query(None)), None);
    assert_eq!(e.extract_id("dQw4w9WgXcé", &query(None)), None);
}

#[test]
fn watch_urls_use_the_query() {
    let e = YouTubeIdExtractor::new();
    for path in [
        "youtube.com/watch",
        "www.youtube.com/watch",
        "music.youtube.com/watch",
        "http://youtube.com/watch",
        "https://www.youtube.com/watch",
        "https://music.youtube.com/watch",
    ] {
        assert_eq!(
            e.extract_id(path, &query(Some("dQw4w9WgXcQ"))),
            Some("dQw4w9WgXcQ".to_string()),
            "{path}"
        );
        assert_eq!(e.extract_id(path, &query(None)), None, "{path}");
    }
    let id = "dQw4w9WgXcQ";
    assert_eq!(e.extract_id("https://m.youtube.com/watch", &query(Some(id))), None);
    assert_eq!(e.extract_id("https://youtube.com/watch/", &query(Some(id))), None);
    assert_eq!(e.extract_id("ftp://youtube.com/watch", &query(Some(id))), None);
}

#[test]
fn watch_urls_check_the_query_id() {
    let e = YouTubeIdExtractor::new();
    for v in ["abc", "../x", "dQw4w9WgXc", "dQw4w9WgXcQQ", "dQw4w9WgX/Q", "", "dQw4w9WgXc."] {
        assert_eq!(e.extract_id("https://www.youtube.com/watch", &query(Some(v))), None, "{v}");
    }
    assert_eq!(
        e.extract_id("youtube.com/watch", &query(Some("a-b_c-d_e-f"))),
        Some("a-b_c-d_e-f".to_string())
    );
}

#[test]
fn short_urls_carry_the_id() {
    let e = YouTubeIdExtractor::new();
    for path in [
        "youtu.be/dQw4w9WgXcQ",
        "https://youtu.be/dQw4w9WgXcQ",
        "http://www.youtu.be/dQw4w9WgXcQ",
        "youtube.com/shorts/dQw4w9WgXcQ",
        "https://www.youtube.com/shorts/dQw4w9WgXcQ",
    ] {
        assert_eq!(e.extract_id(path, &query(Some("zzz"))), Some("dQw4w9WgXcQ".to_string()), "{path}");
    }
    assert_eq!(e.extract_id("youtu.be/dQw4w9WgXc", &query(None)), None);
    assert_eq!(e.extract_id("music.youtube.com/shorts/dQw4w9WgXcQ", &query(None)), None);
    assert_eq!(e.extract_id("youtube.com/shorts/dQw4w9WgXcQ/", &query(None)), None);
}

#[test]
fn agrees_with_the_regular_expressions() {
    let id = Regex::new(r"^[a-zA-Z0-9_-]{11}$").unwrap();
    let watch = Regex::new(r"^(?:https?://)?(?:music\.|www\.)?youtube\.com/watch$").unwrap();
    let short = Regex::new(
        r"^(?:https?://)?(?:www\.)?(?:youtu\.be/|youtube\.com/shorts/)([a-zA-Z0-9_-]{11})$",
    )
    .unwrap();
    let e = YouTubeIdExtractor::new();
    let prefixes = ["", "http://", "https://", "htp://", "https:/"];
    let hosts = ["", "www.", "music.", "m.", "www"];
    let rests = [
        "youtube.com/watch",
        "youtube.com/watc",
        "youtu.be/",
        "youtube.com/shorts/",
        "youtube.com/short/",
    ];
    let tails = ["", "dQw4w9WgXcQ", "dQw4w9WgXc", "dQw4w9WgXcQx", "dQw4w9WgX-_", "dQw4w9WgX c"];
    for p in prefixes {
        for h in hosts {
            for r in rests {
                for t in tails {
                    let path = format!("{p}{h}{r}{t}");
                    let expected = if watch.is_match(&path) {
                        None
                    } else if let Some(c) = short.captures(&path) {
                        c.get(1).map(|m| m.as_str().to_string())
                    } else if id.is_match(&path) {
                        Some(path.clone())
                    } else {
                        None
                    };
                    assert_eq!(e.extract_id(&path, &query(Some("q"))), expected, "{path}");
                }
            }
        }
    }
    for t in tails {
        let expected = if id.is_match(t) { Some(t.to_string()) } else { None };
        assert_eq!(e.extract_id(t, &query(None)), expected);
        let watched = if id.is_match(t) { Some(t.to_string()) } else { None };
        assert_eq!(e.extract_id("https://youtube.com/watch", &query(Some(t))), watched);
    }
}
