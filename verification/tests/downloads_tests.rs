use kitty_media::downloads::Downloads;

#[test]
fn claims_up_to_the_limit() {
    let mut d = Downloads::new(2);
    assert!(d.available_slot());
    assert_eq!(d.try_claim("aaaaaaaaaaa"), Some(true));
    assert_eq!(d.try_claim("bbbbbbbbbbb"), Some(true));
    assert_eq!(d.count(), 2);
    assert!(!d.available_slot());
    assert_eq!(d.try_claim("ccccccccccc"), None);
    assert_eq!(d.count(), 2);
}

#[test]
fn second_download_of_a_video_does_not_cache() {
    let mut d = Downloads::new(3);
    assert_eq!(d.try_claim("aaaaaaaaaaa"), Some(true));
    assert_eq!(d.try_claim("aaaaaaaaaaa"), Some(false));
    assert_eq!(d.count(), 2);
    d.release("aaaaaaaaaaa", true);
    assert_eq!(d.count(), 1);
    assert_eq!(d.try_claim("aaaaaaaaaaa"), Some(true));
}

#[test]
fn release_frees_the_slot() {
    let mut d = Downloads::new(1);
    assert_eq!(d.try_claim("aaaaaaaaaaa"), Some(true));
    assert_eq!(d.try_claim("bbbbbbbbbbb"), None);
    d.release("aaaaaaaaaaa", true);
    assert_eq!(d.count(), 0);
    assert_eq!(d.try_claim("bbbbbbbbbbb"), Some(true));
    d.release("zzzzzzzzzzz", false);
    assert_eq!(d.count(), 1);
}

#[test]
fn no_slots_at_all() {
    let mut d = Downloads::new(0);
    assert!(!d.available_slot());
    assert_eq!(d.try_claim("aaaaaaaaaaa"), None);
}
