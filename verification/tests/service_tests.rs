use kitty_media::service::{
    cache_file_name, entity_tag, etag_matches, plan_get, plan_head,
    temp_cache_file_name, watch_url, Answers, CachePolicy, CacheStatus, Question, Reply, Request,
    Step,
};

fn request(id: Option<&str>, tag: Option<&str>, caching: bool) -> Request {
    Request {
        id: id.map(|s| s.to_string()),
        if_none_match: tag.map(|s| s.to_string()),
        caching,
    }
}

#[test]
fn names_and_tags() {
    assert_eq!(entity_tag("abc"), "\"abc\"");
    assert_eq!(cache_file_name("abc"), "abc.mp4");
    assert_eq!(temp_cache_file_name("abc"), "abc.frag.mp4");
    assert_eq!(watch_url("dQw4w9WgXcQ"), "https://youtube.com/watch?v=dQw4w9WgXcQ");
    assert_eq!(cache_file_name("dQw4w9WgXcQ"), "dQw4w9WgXcQ.mp4");
    assert!(etag_matches(&Some("\"abc\"".to_string()), "abc"));
    assert!(!etag_matches(&Some("abc".to_string()), "abc"));
    assert!(!etag_matches(&Some("W/\"abc\"".to_string()), "abc"));
    assert!(!etag_matches(&None, "abc"));
}

#[test]
fn get_without_id_is_bad_request() {
    let r = request(None, None, true);
    assert_eq!(plan_get(&r, &Answers::new()), Step::Reply(Reply::InvalidId));
    assert_eq!(plan_head(&r, &Answers::new()), Step::Reply(Reply::InvalidId));
    assert_eq!(Reply::InvalidId.status(), 400);
    assert_eq!(Reply::InvalidId.message(), Some("Invalid YouTube ID or URL".to_string()));
}

#[test]
fn get_uncached_walkthrough() {
    let r = request(Some("abc"), None, true);
    let mut a = Answers::new();
    assert_eq!(plan_get(&r, &a), Step::Ask(Question::CacheExists));
    a.cache_exists = Some(false);
    assert_eq!(plan_get(&r, &a), Step::Ask(Question::Claim));
    a.claim = Some(None);
    assert_eq!(plan_get(&r, &a), Step::Reply(Reply::Busy));
    a.claim = Some(Some(true));
    assert_eq!(plan_get(&r, &a), Step::Ask(Question::MediaUrl));
    a.media_url = Some(false);
    assert_eq!(plan_get(&r, &a), Step::Ask(Question::ReleaseClaim));
    a.released = true;
    assert_eq!(plan_get(&r, &a), Step::Reply(Reply::MediaUrlFailed));
    a.released = false;
    a.media_url = Some(true);
    assert_eq!(
        plan_get(&r, &a),
        Step::Reply(Reply::Stream { id: "abc".to_string(), cacher: true })
    );
    a.claim = Some(Some(false));
    assert_eq!(
        plan_get(&r, &a),
        Step::Reply(Reply::Stream { id: "abc".to_string(), cacher: false })
    );
    assert_eq!(Reply::Busy.status(), 503);
    assert_eq!(
        Reply::Busy.message(),
        Some("Server is busy processing other requests. Please try again later.".to_string())
    );
    assert_eq!(Reply::MediaUrlFailed.status(), 500);
}

#[test]
fn get_without_caching_skips_the_cache() {
    let r = request(Some("abc"), Some("\"abc\""), false);
    assert_eq!(plan_get(&r, &Answers::new()), Step::Ask(Question::Claim));
    assert_eq!(plan_head(&r, &Answers::new()), Step::Reply(Reply::Uncached));
}

#[test]
fn get_cached_walkthrough() {
    let matching = request(Some("abc"), Some("\"abc\""), true);
    let other = request(Some("abc"), Some("\"xyz\""), true);
    let mut a = Answers::new();
    a.cache_exists = Some(true);
    assert_eq!(plan_get(&matching, &a), Step::Ask(Question::CacheSize));
    assert_eq!(plan_get(&other, &a), Step::Ask(Question::OpenCache));
    a.cache_size = Some(None);
    a.cache_opened = Some(false);
    assert_eq!(plan_get(&matching, &a), Step::Reply(Reply::CacheUnreadable));
    assert_eq!(plan_get(&other, &a), Step::Reply(Reply::CacheOpenFailed));
    a.cache_size = Some(Some(42));
    a.cache_opened = Some(true);
    assert_eq!(
        plan_get(&matching, &a),
        Step::Reply(Reply::NotModified { id: "abc".to_string(), size: 42 })
    );
    assert_eq!(plan_get(&other, &a), Step::Reply(Reply::CachedFile { id: "abc".to_string() }));
    assert_eq!(Reply::CacheUnreadable.message(), Some("Failed to access cached file".to_string()));
    assert_eq!(Reply::CacheOpenFailed.message(), Some("Failed to open cached file".to_string()));
}

#[test]
fn head_walkthrough() {
    let matching = request(Some("abc"), Some("\"abc\""), true);
    let other = request(Some("abc"), None, true);
    let mut a = Answers::new();
    assert_eq!(plan_head(&other, &a), Step::Ask(Question::CacheExists));
    a.cache_exists = Some(false);
    assert_eq!(plan_head(&other, &a), Step::Reply(Reply::Uncached));
    a.cache_exists = Some(true);
    assert_eq!(plan_head(&matching, &a), Step::Ask(Question::CacheSize));
    a.cache_size = Some(None);
    assert_eq!(plan_head(&matching, &a), Step::Reply(Reply::CacheUnreadable));
    a.cache_size = Some(Some(7));
    assert_eq!(
        plan_head(&matching, &a),
        Step::Reply(Reply::NotModified { id: "abc".to_string(), size: 7 })
    );
    assert_eq!(
        plan_head(&other, &a),
        Step::Reply(Reply::CachedHead { id: "abc".to_string(), size: 7 })
    );
}

#[test]
fn reply_headers() {
    let hit = Reply::CachedHead { id: "abc".to_string(), size: 1 };
    assert_eq!(hit.status(), 200);
    assert_eq!(hit.cache_policy(), Some(CachePolicy::Immutable));
    assert_eq!(hit.cache_status(), Some(CacheStatus::Hit));
    assert_eq!(Reply::Uncached.cache_policy(), Some(CachePolicy::NoStore));
    assert_eq!(Reply::Uncached.cache_status(), Some(CacheStatus::Miss));
    assert_eq!(Reply::NotModified { id: "a".to_string(), size: 1 }.status(), 304);
    assert_eq!(Reply::Busy.cache_policy(), None);
    assert_eq!(CachePolicy::Immutable.to_string(), "public, max-age=31536000, immutable");
    assert_eq!(CachePolicy::NoStore.to_string(), "no-cache, no-store, must-revalidate");
    assert_eq!(CacheStatus::Hit.to_string(), "HIT");
    assert_eq!(CacheStatus::Miss.to_string(), "MISS");
}

#[test]
fn reply_contents() {
    let head = Reply::CachedHead { id: "abc".to_string(), size: 9 };
    assert_eq!(head.tag(), Some("abc".to_string()));
    assert_eq!(head.content_length(), Some(9));
    assert_eq!(head.content_type(), Some("video/mp4".to_string()));
    let file = Reply::CachedFile { id: "abc".to_string() };
    assert_eq!(file.tag(), Some("abc".to_string()));
    assert_eq!(file.content_length(), None);
    assert_eq!(file.content_type(), None);
    let stream = Reply::Stream { id: "abc".to_string(), cacher: true };
    assert_eq!(stream.tag(), None);
    assert_eq!(stream.content_type(), Some("video/mp4".to_string()));
    assert_eq!(Reply::Uncached.content_length(), None);
    assert_eq!(Reply::InvalidId.content_type(), None);
}
