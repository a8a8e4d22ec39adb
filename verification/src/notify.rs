//! Turning failures into notifications: which title an error message gets,
//! how long a body may be, and the line written to the fallback log.
use vstd::prelude::*;
use vstd::utf8::{decode_utf8, encode_scalar, encode_utf8, is_char_boundary, valid_utf8};
use vstd::string::StringSliceAdditionalSpecFns;

use crate::config::{
    config_dir, config_dir_in, join_path, lemma_config_dir_shape, lemma_plain_parts, path_join, under,
    Platform,
};
use crate::text::{chars_of, concat_str, contains_chars, contains_seq, decimal, u64_to_decimal};

verus! {

broadcast use vstd::utf8::encode_utf8_valid_utf8, vstd::utf8::encode_utf8_decode_utf8;

// ---------------------------------------------------------------------------
// Classifying failures
// ---------------------------------------------------------------------------

/// The lower-case form the standard library gives `s` (Unicode lower-casing).
pub uninterp spec fn lowercase(s: Seq<char>) -> Seq<char>;

/// `str::to_lowercase`: the contract claims only that the result depends
/// on the text alone.
pub assume_specification[ str::to_lowercase ](s: &str) -> (res: String)
    ensures
        res@ == lowercase(s@),
;

/// The title a failure is shown under, given its lower-cased message.
pub open spec fn failure_title(lower: Seq<char>) -> Seq<char> {
    if contains_seq(lower, "api key missing"@) || contains_seq(lower, "decrypt"@) {
        "API key missing"@
    } else if contains_seq(lower, "api error"@) || contains_seq(lower, "network error"@)
        || contains_seq(lower, "parse error"@) || contains_seq(lower, "no response from api"@) {
        "AI request failed"@
    } else if contains_seq(lower, "api client"@) || contains_seq(lower, "http client"@) {
        "API client error"@
    } else if contains_seq(lower, "clipboard"@) {
        "Clipboard error"@
    } else if contains_seq(lower, "config"@) {
        "Configuration error"@
    } else {
        "GhostWriter error"@
    }
}

/// The advice shown when the key is missing or cannot be read.
pub open spec fn missing_key_advice() -> Seq<char> {
    "Set your OpenRouter API key in ~/.config/ghostwriter/config.json."@
}

/// The body a failure is shown with: advice for a missing key, otherwise
/// the message itself.
pub open spec fn failure_body(message: Seq<char>, lower: Seq<char>) -> Seq<char> {
    if contains_seq(lower, "api key missing"@) || contains_seq(lower, "decrypt"@) {
        missing_key_advice()
    } else {
        message
    }
}

/// Whether `needle` occurs in the characters `hay`.
fn has(hay: &[char], needle: &str) -> (res: bool)
    ensures
        res == contains_seq(hay@, needle@),
{
    let n = chars_of(needle);
    contains_chars(hay, n.as_slice())
}

/// Title and body for the failure `message`, given its lower-cased form.
pub fn classify_lowered(message: &str, lower: &str) -> (res: (&'static str, String))
    ensures
        res.0@ == failure_title(lower@),
        res.1@ == failure_body(message@, lower@),
{
    let l = chars_of(lower);
    let h = l.as_slice();
    if has(h, "api key missing") || has(h, "decrypt") {
        (
            "API key missing",
            "Set your OpenRouter API key in ~/.config/ghostwriter/config.json.".to_string(),
        )
    } else if has(h, "api error") || has(h, "network error") || has(h, "parse error") || has(
        h,
        "no response from api",
    ) {
        ("AI request failed", message.to_string())
    } else if has(h, "api client") || has(h, "http client") {
        ("API client error", message.to_string())
    } else if has(h, "clipboard") {
        ("Clipboard error", message.to_string())
    } else if has(h, "config") {
        ("Configuration error", message.to_string())
    } else {
        ("GhostWriter error", message.to_string())
    }
}

/// Title and body of the notification for the failure `err`; matching
/// ignores case, and the first matching rule wins.
pub fn classify(err: &str) -> (res: (&'static str, String))
    ensures
        res.0@ == failure_title(lowercase(err@)),
        res.1@ == failure_body(err@, lowercase(err@)),
{
    let lower = err.to_lowercase();
    classify_lowered(err, lower.as_str())
}

// ---------------------------------------------------------------------------
// Shortening bodies
// ---------------------------------------------------------------------------

/// The most bytes of a body that are shown.
pub const MAX_BODY_LEN: usize = 240;

/// The largest character boundary of `bytes` at or below `n`.
pub open spec fn boundary_at_most(bytes: Seq<u8>, n: int) -> int
    decreases n,
{
    if n <= 0 {
        0
    } else if is_char_boundary(bytes, n) {
        n
    } else {
        boundary_at_most(bytes, n - 1)
    }
}

/// A body as shown: unchanged when its UTF-8 form fits in 240 bytes,
/// otherwise cut at the last character boundary within 240 bytes and
/// followed by `…`.
pub open spec fn shortened(s: Seq<char>) -> Seq<char> {
    let bytes = encode_utf8(s);
    if bytes.len() <= 240 {
        s
    } else {
        decode_utf8(bytes.take(boundary_at_most(bytes, 240))) + seq!['…']
    }
}

/// The body `s` as shown in a notification.
pub fn truncate(s: &str) -> (res: String)
    ensures
        res@ == shortened(s@),
{
    let total = s.as_bytes().len();
    if total <= MAX_BODY_LEN {
        return s.to_string();
    }
    let ghost bytes = encode_utf8(s@);
    let mut end: usize = MAX_BODY_LEN;
    while end > 0 && !s.is_char_boundary(end)
        invariant
            end <= MAX_BODY_LEN < bytes.len(),
            bytes == encode_utf8(s@),
            boundary_at_most(bytes, end as int) == boundary_at_most(bytes, 240),
        decreases end,
    {
        end = end - 1;
    }
    proof {
        vstd::utf8::is_char_boundary_start_end_of_seq(bytes);
    }
    let (head, _) = s.split_at(end);
    proof {
        assert(head.spec_bytes() == bytes.take(end as int));
        assert(head@ == decode_utf8(encode_utf8(head@)));
        assert(boundary_at_most(bytes, end as int) == end);
        reveal_strlit("…");
    }
    concat_str(head, "…")
}

/// `boundary_at_most` gives a character boundary within `0..=n`.
proof fn lemma_boundary_at_most(bytes: Seq<u8>, n: int)
    requires
        valid_utf8(bytes),
    ensures
        0 <= boundary_at_most(bytes, n),
        n >= 0 ==> boundary_at_most(bytes, n) <= n,
        is_char_boundary(bytes, boundary_at_most(bytes, n)),
    decreases n,
{
    vstd::utf8::is_char_boundary_start_end_of_seq(bytes);
    if n > 0 && !is_char_boundary(bytes, n) {
        lemma_boundary_at_most(bytes, n - 1);
    }
}

/// Encoding a concatenation concatenates the encodings.
pub proof fn lemma_encode_concat(a: Seq<char>, b: Seq<char>)
    ensures
        encode_utf8(a + b) == encode_utf8(a) + encode_utf8(b),
    decreases a.len(),
{
    if a.len() > 0 {
        assert((a + b).drop_first() =~= a.drop_first() + b);
        lemma_encode_concat(a.drop_first(), b);
        assert(encode_utf8(a + b) =~= encode_utf8(a) + encode_utf8(b));
    } else {
        assert(a + b =~= b);
    }
}

/// A shown body takes at most 243 bytes: 240 of the message and three of
/// the ellipsis.
pub proof fn law_shortened_fits(s: Seq<char>)
    ensures
        encode_utf8(shortened(s)).len() <= 243,
{
    let bytes = encode_utf8(s);
    if bytes.len() > 240 {
        let e = boundary_at_most(bytes, 240);
        lemma_boundary_at_most(bytes, 240);
        vstd::utf8::valid_utf8_split(bytes, e);
        let head = bytes.subrange(0, e);
        assert(bytes.take(e) == head);
        vstd::utf8::decode_utf8_encode_utf8(head);
        lemma_encode_concat(decode_utf8(head), seq!['…']);
        let dots = seq!['…'];
        assert(dots.drop_first() =~= Seq::<char>::empty());
        assert(encode_utf8(dots.drop_first()) == Seq::<u8>::empty());
        assert(dots[0] as u32 == 0x2026u32);
        assert(encode_scalar(0x2026u32).len() == 3);
        assert(encode_utf8(dots) == encode_scalar(dots[0] as u32) + encode_utf8(dots.drop_first()));
        assert(encode_utf8(dots).len() == 3);
    }
}

// ---------------------------------------------------------------------------
// The fallback log
// ---------------------------------------------------------------------------

/// The fallback log file inside the configuration directory `dir`.
pub open spec fn log_path_in(platform: Platform, dir: Seq<char>) -> Seq<char> {
    join_path(platform, dir, "ghostwriter.log"@)
}

/// The fallback log lies inside the configuration directory: the
/// directory, the platform's separator, then `ghostwriter.log`.
pub proof fn law_log_in_config_dir(platform: Platform, home: Option<Seq<char>>, app_data: Option<Seq<char>>)
    ensures
        log_path_in(platform, config_dir_in(platform, home, app_data)) == under(
            platform,
            config_dir_in(platform, home, app_data),
            "ghostwriter.log"@,
        ),
{
    reveal_strlit("ghostwriter.log");
    lemma_config_dir_shape(platform, home, app_data);
}

/// The fallback log file: `ghostwriter.log` in the configuration directory.
pub fn log_path(platform: Platform) -> (res: String)
    ensures
        exists|home: Option<Seq<char>>, app_data: Option<Seq<char>>|
            res@ == log_path_in(platform, config_dir_in(platform, home, app_data)),
{
    proof {
        lemma_plain_parts();
    }
    let dir = config_dir(platform);
    path_join(platform, dir.as_str(), "ghostwriter.log")
}

/// One line of the fallback log: `<seconds> [ERROR] <title>: <body>` and a
/// line break.
pub open spec fn log_line(ts: u64, title: Seq<char>, body: Seq<char>) -> Seq<char> {
    decimal(ts as nat) + " [ERROR] "@ + title + ": "@ + body + "\n"@
}

/// One line of the fallback log.
pub fn format_log_line(ts: u64, title: &str, body: &str) -> (res: String)
    ensures
        res@ == log_line(ts, title@, body@),
{
    let mut line = u64_to_decimal(ts);
    line.append(" [ERROR] ");
    line.append(title);
    line.append(": ");
    line.append(body);
    line.append("\n");
    line
}

#[verifier::external_type_specification]
#[verifier::external_body]
pub struct ExSystemTime(std::time::SystemTime);

/// Calls `SystemTime::now`; nothing is claimed of the clock's reading.
#[verifier::external_body]
fn current_time() -> (res: std::time::SystemTime) {
    std::time::SystemTime::now()
}

/// Calls `SystemTime::duration_since(UNIX_EPOCH)` on `t`; `None` where `t`
/// lies before the epoch. Nothing is claimed of the result.
#[verifier::external_body]
fn since_unix_epoch(t: &std::time::SystemTime) -> (res: Option<core::time::Duration>) {
    match t.duration_since(std::time::UNIX_EPOCH) {
        Ok(d) => Some(d),
        Err(_) => None,
    }
}

/// `Duration::as_secs`: nothing is claimed of the result.
pub assume_specification[ core::time::Duration::as_secs ](d: &core::time::Duration) -> u64;

/// The time stamp for a clock reading of `since_epoch` whole seconds after
/// the Unix epoch (`None` for a reading before it): those seconds, or 0.
pub fn seconds_or_zero(since_epoch: Option<u64>) -> (res: u64)
    ensures
        res == match since_epoch {
            Some(s) => s,
            None => 0,
        },
{
    match since_epoch {
        Some(s) => s,
        None => 0,
    }
}

/// Whole seconds since the Unix epoch by the system clock, or 0 where the
/// clock reads earlier than the epoch.
pub fn now_secs() -> (res: u64) {
    let now = current_time();
    let since_epoch = match since_unix_epoch(&now) {
        Some(d) => Some(d.as_secs()),
        None => None,
    };
    seconds_or_zero(since_epoch)
}

} // verus!
