//! The service's settings, read from the values of its environment variables, and the
//! arithmetic built on them (memory budget, cache expiry).

use vstd::prelude::*;

use crate::remote_components::{parse_remote_components, RemoteComponents, RemoteComponentsError};
use crate::text::{
    chars_of, comma_fields_from, comma_from, lemma_comma_from, push_string, strings_view, substring,
    trim, trim_bounds,
};

verus! {

/// The port listened on when no addresses are configured.
pub const DEFAULT_PORT: u16 = 5000;

/// Chunks kept in memory per stream, by default.
pub const DEFAULT_PACKETS_ON_FLY: usize = 128;

/// Bytes read from ffmpeg at a time, by default (32 KiB).
pub const DEFAULT_BUFFER_SIZE: usize = 32768;

/// Downloads allowed at the same time, by default.
pub const DEFAULT_MAX_CONCURRENT_DOWNLOADS: usize = 128;

/// Seconds in a day.
pub const SECONDS_PER_DAY: u64 = 86400;

/// Whether `c` is an ASCII digit.
pub open spec fn is_digit(c: char) -> bool {
    '0' <= c && c <= '9'
}

/// The value of the decimal digits `d` (most significant first).
pub open spec fn digits_value(d: Seq<char>) -> int
    decreases d.len(),
{
    if d.len() == 0 {
        0
    } else {
        digits_value(d.drop_last()) * 10 + (d.last() as int - '0' as int)
    }
}

/// Every character of `d` is a digit.
pub open spec fn all_digits(d: Seq<char>) -> bool {
    forall|i: int| 0 <= i < d.len() ==> is_digit(#[trigger] d[i])
}

/// `s` without a leading `+`.
pub open spec fn without_plus(s: Seq<char>) -> Seq<char> {
    if s.len() > 0 && s[0] == '+' {
        s.drop_first()
    } else {
        s
    }
}

/// The digits of an unsigned decimal: an optional `+` followed by at least one digit.
pub open spec fn unsigned_digits(s: Seq<char>) -> Option<Seq<char>> {
    let d = without_plus(s);
    if d.len() > 0 && all_digits(d) {
        Some(d)
    } else {
        None
    }
}

/// The unsigned decimal that `s` holds, when it is at most `max` (as `str::parse` reads
/// unsigned integers: no sign but `+`, no white space, no overflow).
pub open spec fn parsed_unsigned(s: Seq<char>, max: int) -> Option<int> {
    match unsigned_digits(s) {
        Some(d) => if digits_value(d) <= max {
            Some(digits_value(d))
        } else {
            None
        },
        None => None,
    }
}

/// Reads an unsigned 64-bit decimal.
pub fn parse_u64(s: &str) -> (r: Option<u64>)
    ensures
        match r {
            Some(n) => parsed_unsigned(s@, u64::MAX as int) == Some(n as int),
            None => parsed_unsigned(s@, u64::MAX as int) is None,
        },
{
    let v = chars_of(s);
    let start: usize = if v.len() > 0 && v[0] == '+' {
        1
    } else {
        0
    };
    let ghost d = v@.skip(start as int);
    assert(d =~= without_plus(s@));
    if start == v.len() {
        return None;
    }
    let mut value: u64 = 0;
    let mut overflow = false;
    let mut i = start;
    while i < v.len()
        invariant
            start <= i <= v@.len(),
            v@ == s@,
            d == v@.skip(start as int),
            d == without_plus(s@),
            forall|k: int| 0 <= k < i - start ==> is_digit(#[trigger] d[k]),
            overflow ==> digits_value(d.take(i - start)) > u64::MAX,
            !overflow ==> value == digits_value(d.take(i - start)),
        decreases v@.len() - i,
    {
        let c = v[i];
        if !('0' <= c && c <= '9') {
            assert(d[i - start] == c);
            assert(!is_digit(d[i - start]));
            return None;
        }
        let digit = (c as u32 - '0' as u32) as u64;
        assert(d.take(i - start + 1).drop_last() =~= d.take(i - start));
        assert(d.take(i - start + 1).last() == c);
        if !overflow {
            if value > (u64::MAX - digit) / 10 {
                overflow = true;
            } else {
                value = value * 10 + digit;
            }
        }
        i = i + 1;
    }
    assert(d.take(i - start) =~= d);
    if overflow {
        None
    } else {
        Some(value)
    }
}

/// Reads an unsigned pointer-sized decimal.
pub fn parse_usize(s: &str) -> (r: Option<usize>)
    ensures
        match r {
            Some(n) => parsed_unsigned(s@, usize::MAX as int) == Some(n as int),
            None => parsed_unsigned(s@, usize::MAX as int) is None,
        },
{
    match parse_u64(s) {
        Some(n) => {
            if n <= usize::MAX as u64 {
                Some(n as usize)
            } else {
                None
            }
        },
        None => None,
    }
}

/// A setting read as an unsigned decimal, or `default` when it is unset or not a number.
pub fn usize_setting(value: &Option<String>, default: usize) -> (r: usize)
    ensures
        r == match value {
            Some(v) => match parsed_unsigned(v@, usize::MAX as int) {
                Some(n) => n,
                None => default as int,
            },
            None => default as int,
        },
{
    match value {
        Some(v) => match parse_usize(v.as_str()) {
            Some(n) => n,
            None => default,
        },
        None => default,
    }
}

/// `a` and `b` hold the same ASCII letters up to case, and the same other characters.
pub open spec fn equal_ignoring_ascii_case(a: Seq<char>, b: Seq<char>) -> bool {
    a.len() == b.len() && forall|i: int| 0 <= i < a.len() ==> #[trigger] ascii_lower(a[i]) == ascii_lower(b[i])
}

/// `c` with an ASCII capital letter made lower case.
pub open spec fn ascii_lower(c: char) -> char {
    if 'A' <= c && c <= 'Z' {
        ((c as u32) + 32) as char
    } else {
        c
    }
}

/// The words that switch a flag on: `true`, `1`, `yes`, `y` and `on`, in any letter case.
/// (Comparing the lower-cased value with these words accepts exactly this: no character but
/// an ASCII letter lower-cases into one of their letters.)
pub open spec fn is_enabled_word(s: Seq<char>) -> bool {
    equal_ignoring_ascii_case(s, "true"@) || equal_ignoring_ascii_case(s, "1"@)
        || equal_ignoring_ascii_case(s, "yes"@) || equal_ignoring_ascii_case(s, "y"@)
        || equal_ignoring_ascii_case(s, "on"@)
}

/// Lower-cases an ASCII capital letter.
fn ascii_lower_exec(c: char) -> (r: char)
    ensures
        r == ascii_lower(c),
{
    if 'A' <= c && c <= 'Z' {
        ((c as u8) + 32) as char
    } else {
        c
    }
}

/// Whether `a` and `b` are equal up to the case of ASCII letters.
fn equal_ignoring_ascii_case_exec(a: &str, b: &str) -> (r: bool)
    ensures
        r == equal_ignoring_ascii_case(a@, b@),
{
    let va = chars_of(a);
    let vb = chars_of(b);
    if va.len() != vb.len() {
        return false;
    }
    let mut i: usize = 0;
    while i < va.len()
        invariant
            va@ == a@,
            vb@ == b@,
            va@.len() == vb@.len(),
            i <= va@.len(),
            forall|k: int| 0 <= k < i ==> #[trigger] ascii_lower(va@[k]) == ascii_lower(vb@[k]),
        decreases va@.len() - i,
    {
        if ascii_lower_exec(va[i]) != ascii_lower_exec(vb[i]) {
            return false;
        }
        i = i + 1;
    }
    true
}

/// Whether a flag's value switches it on.
pub fn parse_flag(value: &str) -> (r: bool)
    ensures
        r == is_enabled_word(value@),
{
    equal_ignoring_ascii_case_exec(value, "true") || equal_ignoring_ascii_case_exec(value, "1")
        || equal_ignoring_ascii_case_exec(value, "yes") || equal_ignoring_ascii_case_exec(
        value,
        "y",
    ) || equal_ignoring_ascii_case_exec(value, "on")
}

/// The configured addresses: the comma-separated parts of the value, each trimmed.
pub open spec fn address_parts(s: Seq<char>) -> Seq<Seq<char>> {
    comma_fields_from(s, 0).map_values(|p: Seq<char>| trim(p))
}

/// Splits the addresses setting into its trimmed comma-separated parts.
pub fn split_addresses(value: &str) -> (r: Vec<String>)
    ensures
        strings_view(r@) == address_parts(value@),
{
    let v = chars_of(value);
    let mut parts: Vec<String> = Vec::new();
    let mut start: usize = 0;
    loop
        invariant
            v@ == value@,
            start <= v@.len(),
            strings_view(parts@) + comma_fields_from(v@, start as int).map_values(
                |p: Seq<char>| trim(p),
            ) == address_parts(value@),
        decreases v@.len() - start,
    {
        let mut e = start;
        while e < v.len() && v[e] != ','
            invariant
                start <= e <= v@.len(),
                comma_from(v@, start as int) == comma_from(v@, e as int),
            decreases v@.len() - e,
        {
            e = e + 1;
        }
        proof {
            lemma_comma_from(v@, start as int);
        }
        let (a, b) = trim_bounds(&v, start, e);
        let ghost before = strings_view(parts@);
        push_string(&mut parts, substring(value, a, b));
        if e < v.len() {
            assert(comma_fields_from(v@, start as int) == seq![v@.subrange(start as int, e as int)]
                + comma_fields_from(v@, e + 1));
            assert(comma_fields_from(v@, start as int).map_values(|p: Seq<char>| trim(p))
                =~= seq![trim(v@.subrange(start as int, e as int))] + comma_fields_from(
                v@,
                e + 1,
            ).map_values(|p: Seq<char>| trim(p)));
            start = e + 1;
        } else {
            assert(comma_fields_from(v@, start as int) == seq![v@.subrange(start as int, e as int)]);
            assert(comma_fields_from(v@, start as int).map_values(|p: Seq<char>| trim(p))
                =~= seq![trim(v@.subrange(start as int, e as int))]);
            assert(strings_view(parts@) =~= address_parts(value@));
            return parts;
        }
    }
}

/// The values of the environment variables that the service reads, when set.
pub struct EnvValues {
    /// `KITTY_MEDIA_ENABLE_H2C`.
    pub enable_h2c: Option<String>,
    /// `KITTY_MEDIA_REMOTE_COMPONENTS`.
    pub remote_components: Option<String>,
    /// `KITTY_MEDIA_MAX_CONCURRENT_DOWNLOADS`.
    pub max_concurrent_downloads: Option<String>,
    /// `KITTY_MEDIA_BUFFER_SIZE`.
    pub buffer_size: Option<String>,
    /// `KITTY_MEDIA_PACKETS_ON_FLY`.
    pub packets_on_fly: Option<String>,
    /// `KITTY_MEDIA_FFMPEG_PATH`.
    pub ffmpeg_path: Option<String>,
    /// `KITTY_MEDIA_DELETE_OLD_THAN`.
    pub delete_older_than: Option<String>,
}

/// The settings of the service.
#[derive(Debug, Clone, PartialEq, Eq)]
pub struct Settings {
    /// Whether to serve HTTP/2 over cleartext.
    pub enable_h2c: bool,
    /// The remote components yt-dlp may use.
    pub remote_components: RemoteComponents,
    /// Downloads allowed at the same time.
    pub max_concurrent_downloads: usize,
    /// Bytes read from ffmpeg at a time.
    pub buffer_size: usize,
    /// Chunks kept in memory per stream.
    pub packets_on_fly: usize,
    /// The ffmpeg program.
    pub ffmpeg_path: String,
    /// Cached files unused for longer than this many days are deleted.
    pub delete_older_than_days: Option<u64>,
}

/// The ffmpeg program: the configured one, else `ffmpeg`.
pub open spec fn ffmpeg_path_of(value: Option<Seq<char>>) -> Seq<char> {
    match value {
        Some(p) => p,
        None => "ffmpeg"@,
    }
}

impl Settings {
    /// Reads the settings: a flag is on when its value is one of the enabling words; numbers
    /// that are unset or unreadable take their defaults; an unreadable expiry is no expiry;
    /// a remote components value that is not a comma-separated list of components is an
    /// error.
    pub fn from_env(env: &EnvValues) -> (r: Result<Settings, RemoteComponentsError>)
        ensures
            match env.remote_components {
                Some(v) => match parse_remote_components(v@) {
                    Err(e) => r == Err::<Settings, RemoteComponentsError>(e),
                    Ok(c) => r matches Ok(s) && s.remote_components == c,
                },
                None => r matches Ok(s) && s.remote_components == RemoteComponents::Disabled,
            },
            r matches Ok(s) ==> {
                &&& s.enable_h2c == (env.enable_h2c matches Some(v) && is_enabled_word(v@))
                &&& s.max_concurrent_downloads == match env.max_concurrent_downloads {
                    Some(v) => match parsed_unsigned(v@, usize::MAX as int) {
                        Some(n) => n,
                        None => DEFAULT_MAX_CONCURRENT_DOWNLOADS as int,
                    },
                    None => DEFAULT_MAX_CONCURRENT_DOWNLOADS as int,
                }
                &&& s.buffer_size == match env.buffer_size {
                    Some(v) => match parsed_unsigned(v@, usize::MAX as int) {
                        Some(n) => n,
                        None => DEFAULT_BUFFER_SIZE as int,
                    },
                    None => DEFAULT_BUFFER_SIZE as int,
                }
                &&& s.packets_on_fly == match env.packets_on_fly {
                    Some(v) => match parsed_unsigned(v@, usize::MAX as int) {
                        Some(n) => n,
                        None => DEFAULT_PACKETS_ON_FLY as int,
                    },
                    None => DEFAULT_PACKETS_ON_FLY as int,
                }
                &&& s.ffmpeg_path@ == ffmpeg_path_of(crate::youtube::opt_view(env.ffmpeg_path))
                &&& match s.delete_older_than_days {
                    Some(d) => env.delete_older_than matches Some(v) && parsed_unsigned(
                        v@,
                        u64::MAX as int,
                    ) == Some(d as int),
                    None => !(env.delete_older_than matches Some(v) && parsed_unsigned(
                        v@,
                        u64::MAX as int,
                    ) is Some),
                }
            },
    {
        let remote_components = match &env.remote_components {
            Some(v) => match RemoteComponents::from_str(v.as_str()) {
                Ok(c) => c,
                Err(e) => {
                    return Err(e);
                },
            },
            None => RemoteComponents::Disabled,
        };
        let enable_h2c = match &env.enable_h2c {
            Some(v) => parse_flag(v.as_str()),
            None => false,
        };
        let max_concurrent_downloads = usize_setting(
            &env.max_concurrent_downloads,
            DEFAULT_MAX_CONCURRENT_DOWNLOADS,
        );
        let buffer_size = usize_setting(&env.buffer_size, DEFAULT_BUFFER_SIZE);
        let packets_on_fly = usize_setting(&env.packets_on_fly, DEFAULT_PACKETS_ON_FLY);
        let ffmpeg_path = match &env.ffmpeg_path {
            Some(p) => p.clone(),
            None => String::from_str("ffmpeg"),
        };
        let delete_older_than_days = match &env.delete_older_than {
            Some(v) => parse_u64(v.as_str()),
            None => None,
        };
        Ok(
            Settings {
                enable_h2c,
                remote_components,
                max_concurrent_downloads,
                buffer_size,
                packets_on_fly,
                ffmpeg_path,
                delete_older_than_days,
            },
        )
    }
}

/// The memory the streams may hold: per download, and for all downloads at once.
pub fn memory_budget(buffer_size: usize, packets_on_fly: usize, max_concurrent_downloads: usize) -> (r: (usize, usize))
    requires
        buffer_size * packets_on_fly <= usize::MAX,
        buffer_size * packets_on_fly * max_concurrent_downloads <= usize::MAX,
    ensures
        r.0 == buffer_size * packets_on_fly,
        r.1 == buffer_size * packets_on_fly * max_concurrent_downloads,
{
    let per_download = buffer_size * packets_on_fly;
    (per_download, per_download * max_concurrent_downloads)
}

/// What the cache cleanup does with a file.
#[derive(Clone, Copy, Debug, PartialEq, Eq, Structural)]
pub enum CleanupDecision {
    /// The file has no usable modification or access time: leave it.
    Skip,
    /// The file was used recently enough: keep it.
    Keep,
    /// The file is older than the limit: delete it.
    Delete,
}

/// The later of the modification and access times of a file (seconds since the epoch,
/// zero when unknown).
pub open spec fn file_time(modified: u64, accessed: u64) -> u64 {
    if modified >= accessed {
        modified
    } else {
        accessed
    }
}

/// The decision for a file: skip it when its time is unknown, delete it when it was last
/// used more than `days` days before `now`, keep it otherwise.
pub open spec fn cleanup_decision_of(now: u64, modified: u64, accessed: u64, days: u64) -> CleanupDecision {
    let t = file_time(modified, accessed);
    if t == 0 {
        CleanupDecision::Skip
    } else if now - t > days * 86400 {
        CleanupDecision::Delete
    } else {
        CleanupDecision::Keep
    }
}

/// Decides what the cache cleanup does with a file.
pub fn cleanup_decision(now: u64, modified: u64, accessed: u64, days: u64) -> (r: CleanupDecision)
    requires
        file_time(modified, accessed) != 0 ==> file_time(modified, accessed) <= now && days
            * 86400 <= u64::MAX,
    ensures
        r == cleanup_decision_of(now, modified, accessed, days),
{
    let t = if modified >= accessed {
        modified
    } else {
        accessed
    };
    if t == 0 {
        CleanupDecision::Skip
    } else if now - t > days * SECONDS_PER_DAY {
        CleanupDecision::Delete
    } else {
        CleanupDecision::Keep
    }
}

} // verus!
