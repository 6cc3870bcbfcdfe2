//! Recognising YouTube video IDs in request paths.
//!
//! Three shapes of path are accepted, each a small regular language:
//! - a watch URL, `(https?://)?(music.|www.)?youtube.com/watch`, whose ID is the `v` query
//!   parameter, itself a bare ID;
//! - a short URL, `(https?://)?(www.)?(youtu.be/|youtube.com/shorts/)ID`;
//! - a bare ID: eleven characters out of `a-z`, `A-Z`, `0-9`, `_` and `-`.

use vstd::prelude::*;

use crate::text::chars_of;

verus! {

/// Query parameters of a YouTube URL.
#[derive(Debug, Clone, PartialEq, Eq, Hash)]
pub struct YoutubeQuery {
    /// The `v` parameter: the video ID of a watch URL.
    pub v: Option<String>,
}

/// Recognises YouTube video IDs, short URLs and watch URLs.
#[derive(Debug, Clone, Copy, PartialEq, Eq)]
pub struct YouTubeIdExtractor {}

/// Whether `c` may occur in a video ID.
pub open spec fn is_id_char(c: char) -> bool {
    ('a' <= c && c <= 'z') || ('A' <= c && c <= 'Z') || ('0' <= c && c <= '9') || c == '_' || c
        == '-'
}

/// Whether `s` is a video ID: exactly eleven ID characters.
pub open spec fn is_video_id(s: Seq<char>) -> bool {
    s.len() == 11 && forall|i: int| 0 <= i < s.len() ==> is_id_char(#[trigger] s[i])
}

/// The optional scheme: nothing, `http://` or `https://`.
pub open spec fn is_scheme(p: Seq<char>) -> bool {
    p == Seq::<char>::empty() || p == "http://"@ || p == "https://"@
}

/// The optional host prefix of a watch URL: nothing, `music.` or `www.`.
pub open spec fn is_watch_host(h: Seq<char>) -> bool {
    h == Seq::<char>::empty() || h == "music."@ || h == "www."@
}

/// The optional host prefix of a short URL: nothing or `www.`.
pub open spec fn is_short_host(h: Seq<char>) -> bool {
    h == Seq::<char>::empty() || h == "www."@
}

/// The path part of a short URL: `youtu.be/` or `youtube.com/shorts/`.
pub open spec fn is_short_path(r: Seq<char>) -> bool {
    r == "youtu.be/"@ || r == "youtube.com/shorts/"@
}

/// `s` matches `^(?:https?://)?(?:music\.|www\.)?youtube\.com/watch$`.
pub open spec fn is_watch_url(s: Seq<char>) -> bool {
    exists|p: Seq<char>, h: Seq<char>|
        is_scheme(p) && is_watch_host(h) && s == p + h + "youtube.com/watch"@
}

/// `s` matches
/// `^(?:https?://)?(?:www\.)?(?:youtu\.be/|youtube\.com/shorts/)([a-zA-Z0-9_-]{11})$`
/// with `id` as the captured group.
pub open spec fn is_short_url_of(s: Seq<char>, id: Seq<char>) -> bool {
    exists|p: Seq<char>, h: Seq<char>, r: Seq<char>|
        is_scheme(p) && is_short_host(h) && is_short_path(r) && is_video_id(id) && s == p + h + r
            + id
}

/// `s` is a short URL; its ID is then its last eleven characters.
pub open spec fn is_short_url(s: Seq<char>) -> bool {
    s.len() >= 11 && is_short_url_of(s, s.skip(s.len() - 11))
}

/// The video ID named by a request path and its `v` query parameter: for a watch URL the
/// parameter when it is a video ID, for a short URL the ID in it, for a bare ID the path
/// itself, and nothing for any other path.
pub open spec fn extracted_id(path: Seq<char>, v: Option<Seq<char>>) -> Option<Seq<char>> {
    if is_watch_url(path) {
        match v {
            Some(id) => if is_video_id(id) {
                Some(id)
            } else {
                None
            },
            None => None,
        }
    } else if is_short_url(path) {
        Some(path.skip(path.len() - 11))
    } else if is_video_id(path) {
        Some(path)
    } else {
        None
    }
}

/// The view of an optional string.
pub open spec fn opt_view(o: Option<String>) -> Option<Seq<char>> {
    match o {
        Some(s) => Some(s@),
        None => None,
    }
}

/// `lit` occurs in `s` at `pos`.
pub open spec fn occurs_at(s: Seq<char>, pos: int, lit: Seq<char>) -> bool {
    0 <= pos && pos + lit.len() <= s.len() && s.subrange(pos, pos + lit.len()) == lit
}

/// Length of the scheme that `s` starts with (zero when none).
pub open spec fn scheme_len(s: Seq<char>) -> int {
    if occurs_at(s, 0, "https://"@) {
        8
    } else if occurs_at(s, 0, "http://"@) {
        7
    } else {
        0
    }
}

/// Where the rest of a watch URL starts, after its scheme and host prefix.
pub open spec fn watch_rest_start(s: Seq<char>) -> int {
    let a = scheme_len(s);
    if occurs_at(s, a, "music."@) {
        a + 6
    } else if occurs_at(s, a, "www."@) {
        a + 4
    } else {
        a
    }
}

/// Where the ID of a short URL starts, if the path part is there.
pub open spec fn short_id_start(s: Seq<char>) -> Option<int> {
    let a = scheme_len(s);
    let b = if occurs_at(s, a, "www."@) {
        a + 4
    } else {
        a
    };
    if occurs_at(s, b, "youtu.be/"@) {
        Some(b + 9)
    } else if occurs_at(s, b, "youtube.com/shorts/"@) {
        Some(b + 19)
    } else {
        None
    }
}

/// Whether `lit` occurs in `v` at `pos`.
fn occurs_at_exec(v: &Vec<char>, pos: usize, lit: &str) -> (r: bool)
    ensures
        r == occurs_at(v@, pos as int, lit@),
{
    let l = chars_of(lit);
    if pos > v.len() || l.len() > v.len() - pos {
        return false;
    }
    let n = v.len();
    let mut i: usize = 0;
    while i < l.len()
        invariant
            n == v@.len(),
            pos + l@.len() <= n,
            i <= l@.len(),
            l@ == lit@,
            forall|k: int| 0 <= k < i ==> v@[pos + k] == l@[k],
        decreases l@.len() - i,
    {
        if v[pos + i] != l[i] {
            assert(v@.subrange(pos as int, pos + l@.len())[i as int] != l@[i as int]);
            return false;
        }
        i = i + 1;
    }
    assert(v@.subrange(pos as int, pos + l@.len()) =~= l@);
    true
}

/// Whether `v[from..]` is a video ID.
fn is_video_id_from(v: &Vec<char>, from: usize) -> (r: bool)
    requires
        from <= v@.len(),
    ensures
        r == is_video_id(v@.skip(from as int)),
{
    if v.len() - from != 11 {
        return false;
    }
    let mut i = from;
    while i < v.len()
        invariant
            from <= i <= v@.len(),
            v@.len() - from == 11,
            forall|k: int| from <= k < i ==> is_id_char(#[trigger] v@[k]),
        decreases v@.len() - i,
    {
        let c = v[i];
        if !(('a' <= c && c <= 'z') || ('A' <= c && c <= 'Z') || ('0' <= c && c <= '9') || c == '_'
            || c == '-') {
            assert(v@.skip(from as int)[i - from] == c);
            return false;
        }
        i = i + 1;
    }
    assert forall|k: int| 0 <= k < v@.skip(from as int).len() implies is_id_char(
        #[trigger] v@.skip(from as int)[k],
    ) by {
        assert(v@.skip(from as int)[k] == v@[from + k]);
    }
    true
}

/// The characters of the string literals that the grammar is built from.
proof fn reveal_literals()
    ensures
        "http://"@ == seq!['h', 't', 't', 'p', ':', '/', '/'],
        "https://"@ == seq!['h', 't', 't', 'p', 's', ':', '/', '/'],
        "music."@ == seq!['m', 'u', 's', 'i', 'c', '.'],
        "www."@ == seq!['w', 'w', 'w', '.'],
        "youtube.com/watch"@ == seq![
            'y', 'o', 'u', 't', 'u', 'b', 'e', '.', 'c', 'o', 'm', '/', 'w', 'a', 't', 'c', 'h',
        ],
        "youtu.be/"@ == seq!['y', 'o', 'u', 't', 'u', '.', 'b', 'e', '/'],
        "youtube.com/shorts/"@ == seq![
            'y', 'o', 'u', 't', 'u', 'b', 'e', '.', 'c', 'o', 'm', '/', 's', 'h', 'o', 'r', 't',
            's', '/',
        ],
{
    reveal_strlit("http://");
    reveal_strlit("https://");
    reveal_strlit("music.");
    reveal_strlit("www.");
    reveal_strlit("youtube.com/watch");
    reveal_strlit("youtu.be/");
    reveal_strlit("youtube.com/shorts/");
    assert("http://"@ =~= seq!['h', 't', 't', 'p', ':', '/', '/']);
    assert("https://"@ =~= seq!['h', 't', 't', 'p', 's', ':', '/', '/']);
    assert("music."@ =~= seq!['m', 'u', 's', 'i', 'c', '.']);
    assert("www."@ =~= seq!['w', 'w', 'w', '.']);
    assert("youtube.com/watch"@ =~= seq![
        'y', 'o', 'u', 't', 'u', 'b', 'e', '.', 'c', 'o', 'm', '/', 'w', 'a', 't', 'c', 'h',
    ]);
    assert("youtu.be/"@ =~= seq!['y', 'o', 'u', 't', 'u', '.', 'b', 'e', '/']);
    assert("youtube.com/shorts/"@ =~= seq![
        'y', 'o', 'u', 't', 'u', 'b', 'e', '.', 'c', 'o', 'm', '/', 's', 'h', 'o', 'r', 't', 's',
        '/',
    ]);
}

/// When `s` is `p + rest` for a scheme `p` and a `rest` that does not start with `h`,
/// `scheme_len` finds `p`.
proof fn lemma_scheme_len(s: Seq<char>, p: Seq<char>, rest: Seq<char>)
    requires
        is_scheme(p),
        s == p + rest,
        rest.len() > 0,
        rest[0] != 'h',
    ensures
        scheme_len(s) == p.len(),
        s.skip(p.len() as int) == rest,
{
    reveal_literals();
    assert(s.skip(p.len() as int) =~= rest);
    if p == "https://"@ {
        assert(s.subrange(0, 8) =~= "https://"@);
    } else if p == "http://"@ {
        assert(s[4] == ':');
        assert(s.subrange(0, 8)[4] == ':');
        assert(s.subrange(0, 7) =~= "http://"@);
    } else {
        assert(s[0] == rest[0]);
        assert(s.len() < 8 || s.subrange(0, 8)[0] != 'h');
        assert(s.len() < 7 || s.subrange(0, 7)[0] != 'h');
    }
}

/// The watch-URL grammar holds exactly when the scanner accepts.
proof fn lemma_watch_url(s: Seq<char>)
    ensures
        is_watch_url(s) <==> s.skip(watch_rest_start(s)) == "youtube.com/watch"@,
        0 <= watch_rest_start(s) <= s.len(),
{
    reveal_literals();
    let t = "youtube.com/watch"@;
    let a = scheme_len(s);
    let b = watch_rest_start(s);
    if is_watch_url(s) {
        let (p, h) = choose|p: Seq<char>, h: Seq<char>|
            is_scheme(p) && is_watch_host(h) && s == p + h + "youtube.com/watch"@;
        assert((h + t).len() > 0 && (h + t)[0] != 'h') by {
            if h.len() > 0 {
                assert((h + t)[0] == h[0]);
            } else {
                assert((h + t)[0] == t[0]);
            }
        }
        assert(s == p + (h + t));
        lemma_scheme_len(s, p, h + t);
        let rest = h + t;
        assert(s.skip(a) == rest);
        assert(a == p.len());
        if h == "music."@ {
            assert(s.subrange(a, a + 6) =~= "music."@);
        } else if h == "www."@ {
            assert(s.subrange(a, a + 6)[0] == 'w');
            assert(s.subrange(a, a + 4) =~= "www."@);
        } else {
            assert(s[a] == 'y');
            assert(s.subrange(a, a + 6)[0] == 'y');
            assert(s.subrange(a, a + 4)[0] == 'y');
        }
        assert(s.skip(b) =~= t);
    } else {
        if s.skip(b) == t {
            let p = s.take(a);
            let h = s.subrange(a, b);
            assert(is_scheme(p)) by {
                if a == 8 {
                    assert(p =~= "https://"@);
                } else if a == 7 {
                    assert(p =~= "http://"@);
                } else {
                    assert(p =~= Seq::<char>::empty());
                }
            }
            assert(is_watch_host(h)) by {
                if b == a + 6 {
                    assert(h =~= "music."@);
                } else if b == a + 4 {
                    assert(h =~= "www."@);
                } else {
                    assert(h =~= Seq::<char>::empty());
                }
            }
            assert(s =~= p + h + t);
        }
    }
}

/// The short-URL grammar holds exactly when the scanner finds the path part and an ID after
/// it; the ID is then the last eleven characters.
proof fn lemma_short_url(s: Seq<char>)
    ensures
        is_short_url(s) <==> (short_id_start(s) matches Some(c) && is_video_id(s.skip(c))),
        short_id_start(s) matches Some(c) ==> 0 <= c <= s.len(),
{
    reveal_literals();
    let a = scheme_len(s);
    let b = if occurs_at(s, a, "www."@) {
        a + 4
    } else {
        a
    };
    if is_short_url(s) {
        let id = s.skip(s.len() - 11);
        let (p, h, r) = choose|p: Seq<char>, h: Seq<char>, r: Seq<char>|
            is_scheme(p) && is_short_host(h) && is_short_path(r) && is_video_id(id) && s == p + h
                + r + id;
        let rest = h + r + id;
        assert(rest.len() > 0 && rest[0] != 'h') by {
            if h.len() > 0 {
                assert(rest[0] == h[0]);
            } else {
                assert(rest[0] == r[0]);
            }
        }
        assert(s == p + rest);
        lemma_scheme_len(s, p, rest);
        assert(a == p.len());
        if h == "www."@ {
            assert(s.subrange(a, a + 4) =~= "www."@);
        } else {
            assert(s[a] == 'y');
            assert(s.subrange(a, a + 4)[0] == 'y');
        }
        assert(b == a + h.len());
        if r == "youtu.be/"@ {
            assert(s.subrange(b, b + 9) =~= "youtu.be/"@);
        } else {
            assert(s[b + 5] == 'b');
            assert(s.subrange(b, b + 9)[5] == 'b');
            assert(s.subrange(b, b + 19) =~= "youtube.com/shorts/"@);
        }
        assert(s.skip(b + r.len()) =~= id);
    } else {
        if let Some(c) = short_id_start(s) {
            if is_video_id(s.skip(c)) {
                let p = s.take(a);
                let h = s.subrange(a, b);
                let r = s.subrange(b, c);
                let id = s.skip(c);
                assert(is_scheme(p)) by {
                    if a == 8 {
                        assert(p =~= "https://"@);
                    } else if a == 7 {
                        assert(p =~= "http://"@);
                    } else {
                        assert(p =~= Seq::<char>::empty());
                    }
                }
                assert(is_short_host(h)) by {
                    if b == a + 4 {
                        assert(h =~= "www."@);
                    } else {
                        assert(h =~= Seq::<char>::empty());
                    }
                }
                assert(is_short_path(r)) by {
                    if c == b + 9 {
                        assert(r =~= "youtu.be/"@);
                    } else {
                        assert(r =~= "youtube.com/shorts/"@);
                    }
                }
                assert(s =~= p + h + r + id);
                assert(s.skip(s.len() - 11) =~= id);
                assert(is_short_url_of(s, s.skip(s.len() - 11)));
            }
        }
    }
}

/// Length of the scheme that `v` starts with.
fn scheme_len_exec(v: &Vec<char>) -> (r: usize)
    ensures
        r == scheme_len(v@),
        r <= v@.len(),
{
    proof {
        reveal_literals();
    }
    if occurs_at_exec(v, 0, "https://") {
        8
    } else if occurs_at_exec(v, 0, "http://") {
        7
    } else {
        0
    }
}

/// Where the rest of a watch URL starts in `v`.
fn watch_rest_start_exec(v: &Vec<char>) -> (r: usize)
    ensures
        r == watch_rest_start(v@),
        r <= v@.len(),
{
    proof {
        reveal_literals();
    }
    let a = scheme_len_exec(v);
    if occurs_at_exec(v, a, "music.") {
        a + 6
    } else if occurs_at_exec(v, a, "www.") {
        a + 4
    } else {
        a
    }
}

/// Where the ID of a short URL starts in `v`, if its path part is there.
fn short_id_start_exec(v: &Vec<char>) -> (r: Option<usize>)
    ensures
        match r {
            Some(c) => short_id_start(v@) == Some(c as int) && c <= v@.len(),
            None => short_id_start(v@) is None,
        },
{
    proof {
        reveal_literals();
    }
    let a = scheme_len_exec(v);
    let b = if occurs_at_exec(v, a, "www.") {
        a + 4
    } else {
        a
    };
    if occurs_at_exec(v, b, "youtu.be/") {
        Some(b + 9)
    } else if occurs_at_exec(v, b, "youtube.com/shorts/") {
        Some(b + 19)
    } else {
        None
    }
}

/// Whether `v[from..]` is `youtube.com/watch`.
fn is_watch_rest(v: &Vec<char>, from: usize) -> (r: bool)
    requires
        from <= v@.len(),
    ensures
        r == (v@.skip(from as int) == "youtube.com/watch"@),
{
    proof {
        reveal_literals();
    }
    let r = occurs_at_exec(v, from, "youtube.com/watch") && v.len() - from == 17;
    assert(r ==> v@.skip(from as int) =~= v@.subrange(from as int, from + 17));
    assert(v@.skip(from as int) == "youtube.com/watch"@ ==> v@.skip(from as int) =~= v@.subrange(
        from as int,
        from + 17,
    ));
    r
}

impl YouTubeIdExtractor {
    /// Creates an extractor.
    pub fn new() -> (r: Self) {
        YouTubeIdExtractor {}
    }

    /// The video ID that a request path names, with the `v` query parameter used for watch
    /// URLs (see [`extracted_id`]).
    pub fn extract_id(&self, path: &str, query: &YoutubeQuery) -> (r: Option<String>)
        ensures
            opt_view(r) == extracted_id(path@, opt_view(query.v)),
            r matches Some(id) ==> is_video_id(id@),
    {
        proof {
            lemma_extracted_id_is_valid(path@, opt_view(query.v));
        }
        let v = chars_of(path);
        proof {
            lemma_watch_url(v@);
            lemma_short_url(v@);
        }
        let b = watch_rest_start_exec(&v);
        if is_watch_rest(&v, b) {
            return match &query.v {
                Some(id) => {
                    let w = chars_of(id.as_str());
                    assert(w@.skip(0) =~= w@);
                    if is_video_id_from(&w, 0) {
                        Some(id.clone())
                    } else {
                        None
                    }
                },
                None => None,
            };
        }
        if let Some(c) = short_id_start_exec(&v) {
            if is_video_id_from(&v, c) {
                assert(v@.skip(v@.len() - 11) =~= v@.skip(c as int));
                let id = crate::text::substring(path, c, v.len());
                assert(id@ =~= v@.skip(c as int));
                return Some(id);
            }
        }
        assert(v@.skip(0) =~= v@);
        if is_video_id_from(&v, 0) {
            return Some(crate::text::substring(path, 0, v.len()));
        }
        None
    }
}

impl Default for YouTubeIdExtractor {
    fn default() -> (r: Self) {
        YouTubeIdExtractor::new()
    }
}

/// Whatever the path and the query, an extracted ID is a video ID: eleven characters out of
/// `a-z`, `A-Z`, `0-9`, `_` and `-`.
pub proof fn lemma_extracted_id_is_valid(path: Seq<char>, v: Option<Seq<char>>)
    ensures
        extracted_id(path, v) matches Some(id) ==> is_video_id(id),
{
    if !is_watch_url(path) && is_short_url(path) {
        let id = path.skip(path.len() - 11);
        let (p, h, r) = choose|p: Seq<char>, h: Seq<char>, r: Seq<char>|
            is_scheme(p) && is_short_host(h) && is_short_path(r) && is_video_id(id) && path == p
                + h + r + id;
    }
}

/// The three shapes do not overlap: a bare video ID is neither a watch URL nor a short URL.
pub proof fn lemma_bare_id_shape(path: Seq<char>, v: Option<Seq<char>>)
    requires
        is_video_id(path),
    ensures
        extracted_id(path, v) == Some(path),
{
    reveal_literals();
    lemma_watch_url(path);
    lemma_short_url(path);
    if is_watch_url(path) {
        let (p, h) = choose|p: Seq<char>, h: Seq<char>|
            is_scheme(p) && is_watch_host(h) && path == p + h + "youtube.com/watch"@;
        assert(path.len() >= 17);
    }
    if is_short_url(path) {
        let id = path.skip(path.len() - 11);
        let (p, h, r) = choose|p: Seq<char>, h: Seq<char>, r: Seq<char>|
            is_scheme(p) && is_short_host(h) && is_short_path(r) && is_video_id(id) && path == p
                + h + r + id;
        assert(path.len() >= 20);
    }
}

/// A short URL is never a watch URL: eleven characters from its end it has the `/` that ends
/// its path part, where a watch URL has the `b` of `youtube`.
proof fn lemma_short_is_not_watch(s: Seq<char>)
    requires
        is_short_url(s),
    ensures
        !is_watch_url(s),
{
    reveal_literals();
    let id = s.skip(s.len() - 11);
    let (p, h, r) = choose|p: Seq<char>, h: Seq<char>, r: Seq<char>|
        is_scheme(p) && is_short_host(h) && is_short_path(r) && is_video_id(id) && s == p + h + r
            + id;
    assert(s[s.len() - 12] == r[r.len() - 1]);
    assert(s[s.len() - 12] == '/');
    if is_watch_url(s) {
        let (p2, h2) = choose|p2: Seq<char>, h2: Seq<char>|
            is_scheme(p2) && is_watch_host(h2) && s == p2 + h2 + "youtube.com/watch"@;
        let w = "youtube.com/watch"@;
        assert(s[s.len() - 12] == w[5]);
    }
}

/// Every short URL, with any scheme and host prefix the grammar allows, names the video ID it
/// ends with, whatever the query.
pub proof fn lemma_short_url_names_its_id(
    p: Seq<char>,
    h: Seq<char>,
    r: Seq<char>,
    id: Seq<char>,
    v: Option<Seq<char>>,
)
    requires
        is_scheme(p),
        is_short_host(h),
        is_short_path(r),
        is_video_id(id),
    ensures
        extracted_id(p + h + r + id, v) == Some(id),
{
    let s = p + h + r + id;
    assert(s.skip(s.len() - 11) =~= id);
    assert(is_short_url_of(s, s.skip(s.len() - 11)));
    lemma_short_is_not_watch(s);
}

/// Every watch URL, with any scheme and host prefix the grammar allows, names the video ID in
/// its `v` parameter when that is a video ID, and no video otherwise.
pub proof fn lemma_watch_url_names_query_id(p: Seq<char>, h: Seq<char>, v: Option<Seq<char>>)
    requires
        is_scheme(p),
        is_watch_host(h),
    ensures
        extracted_id(p + h + "youtube.com/watch"@, v) == match v {
            Some(id) => if is_video_id(id) {
                Some(id)
            } else {
                None
            },
            None => None,
        },
        forall|id: Seq<char>|
            is_video_id(id) ==> extracted_id(p + h + "youtube.com/watch"@, Some(id)) == Some(id),
{
    assert(is_watch_url(p + h + "youtube.com/watch"@));
}

} // verus!
