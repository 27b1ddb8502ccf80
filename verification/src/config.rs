//! Service configuration: the immutable settings record every job reads,
//! its defaults, and the parsing applied to raw environment values.
//!
//! Reading the process environment is left to the surrounding binary; it
//! hands the raw values in here. A malformed numeric value falls back
//! silently to its default. The extension allow-list is a comma-separated
//! string whose entries are trimmed of ASCII whitespace.

use vstd::prelude::*;
use crate::qualify::views_of;

verus! {

/// Whether `c` is an ASCII whitespace character.
pub open spec fn is_ascii_space(c: char) -> bool {
    c == ' ' || c == '\t' || c == '\n' || c == '\r' || c as int == 11 || c as int == 12
}

fn is_space_char(c: char) -> (r: bool)
    ensures
        r == is_ascii_space(c),
{
    let v = c as u32;
    v == 32 || v == 9 || v == 10 || v == 13 || v == 11 || v == 12
}

/// `s` without its leading ASCII whitespace.
pub open spec fn trim_start_spec(s: Seq<char>) -> Seq<char>
    decreases s.len(),
{
    if s.len() > 0 && is_ascii_space(s[0]) {
        trim_start_spec(s.subrange(1, s.len() as int))
    } else {
        s
    }
}

/// `s` without its trailing ASCII whitespace.
pub open spec fn trim_end_spec(s: Seq<char>) -> Seq<char>
    decreases s.len(),
{
    if s.len() > 0 && is_ascii_space(s.last()) {
        trim_end_spec(s.drop_last())
    } else {
        s
    }
}

/// `s` without leading and trailing ASCII whitespace.
pub open spec fn trim_spec(s: Seq<char>) -> Seq<char> {
    trim_end_spec(trim_start_spec(s))
}

fn trim_start(s: &str) -> (r: String)
    ensures
        r@ == trim_start_spec(s@),
    decreases s@.len(),
{
    let n = s.unicode_len();
    if n > 0 && is_space_char(s.get_char(0)) {
        let rest = s.substring_char(1, n);
        trim_start(rest)
    } else {
        s.to_owned()
    }
}

fn trim_end(s: &str) -> (r: String)
    ensures
        r@ == trim_end_spec(s@),
    decreases s@.len(),
{
    let n = s.unicode_len();
    if n > 0 && is_space_char(s.get_char(n - 1)) {
        let rest = s.substring_char(0, n - 1);
        proof {
            assert(rest@ =~= s@.drop_last());
        }
        trim_end(rest)
    } else {
        s.to_owned()
    }
}

/// `s` without leading and trailing ASCII whitespace.
pub fn trim(s: &str) -> (r: String)
    ensures
        r@ == trim_spec(s@),
{
    let t = trim_start(s);
    trim_end(t.as_str())
}

/// `s` split at every comma. Splitting the empty string gives one empty
/// piece, and every comma ends a piece, so "a,," gives ["a", "", ""].
pub open spec fn split_commas(s: Seq<char>) -> Seq<Seq<char>>
    decreases s.len(),
{
    if s.len() == 0 {
        seq![Seq::empty()]
    } else if s.last() == ',' {
        split_commas(s.drop_last()).push(Seq::empty())
    } else {
        let rest = split_commas(s.drop_last());
        rest.update(rest.len() - 1, rest.last().push(s.last()))
    }
}

/// `s` split at every comma, each piece trimmed of ASCII whitespace.
pub open spec fn trimmed_split(s: Seq<char>) -> Seq<Seq<char>> {
    split_commas(s).map_values(|p: Seq<char>| trim_spec(p))
}

/// Splits `s` at commas and trims each piece, as the extension allow-list
/// is read from its comma-separated form.
pub fn parse_extensions(s: &str) -> (r: Vec<String>)
    ensures
        views_of(r@) == trimmed_split(s@),
{
    let ghost trimf = |p: Seq<char>| trim_spec(p);
    let n = s.unicode_len();
    let mut out: Vec<String> = Vec::new();
    let mut start: usize = 0;
    let mut i: usize = 0;
    while i < n
        invariant
            n == s@.len(),
            start <= i <= n,
            trimf == (|p: Seq<char>| trim_spec(p)),
            split_commas(s@.subrange(0, i as int)).len() == out@.len() + 1,
            views_of(out@) == split_commas(s@.subrange(0, i as int)).drop_last().map_values(
                trimf,
            ),
            split_commas(s@.subrange(0, i as int)).last() == s@.subrange(
                start as int,
                i as int,
            ),
        decreases n - i,
    {
        let ghost prefix = s@.subrange(0, i as int);
        let ghost next_prefix = s@.subrange(0, i + 1);
        proof {
            assert(next_prefix.drop_last() =~= prefix);
            assert(next_prefix.last() == s@[i as int]);
        }
        let c = s.get_char(i);
        if c == ',' {
            let piece = trim(s.substring_char(start, i));
            out.push(piece);
            start = i + 1;
            proof {
                let sp = split_commas(prefix);
                assert(split_commas(next_prefix) =~= sp.push(Seq::empty()));
                assert(split_commas(next_prefix).drop_last() =~= sp);
                assert(sp =~= sp.drop_last().push(sp.last()));
                assert(views_of(out@) =~= sp.drop_last().map_values(trimf).push(
                    trim_spec(sp.last()),
                ));
                assert(sp.drop_last().map_values(trimf).push(trim_spec(sp.last())) =~= sp.map_values(
                    trimf,
                ));
                assert(split_commas(next_prefix).last() =~= s@.subrange(i + 1, i + 1));
            }
        } else {
            proof {
                let sp = split_commas(prefix);
                let upd = sp.update(sp.len() - 1, sp.last().push(s@[i as int]));
                assert(split_commas(next_prefix) =~= upd);
                assert(upd.drop_last() =~= sp.drop_last());
                assert(upd.last() == sp.last().push(s@[i as int]));
                assert(sp.last().push(s@[i as int]) =~= s@.subrange(start as int, i + 1));
            }
        }
        i = i + 1;
    }
    let piece = trim(s.substring_char(start, n));
    out.push(piece);
    proof {
        assert(s@.subrange(0, n as int) =~= s@);
        let sp = split_commas(s@);
        assert(sp =~= sp.drop_last().push(sp.last()));
        assert(views_of(out@) =~= sp.drop_last().map_values(trimf).push(trim_spec(sp.last())));
        assert(sp.drop_last().map_values(trimf).push(trim_spec(sp.last())) =~= sp.map_values(
            trimf,
        ));
    }
    out
}

/// Whether `c` is a decimal digit.
pub open spec fn is_dec_digit(c: char) -> bool {
    48 <= c as int <= 57
}

/// Whether every character of `s` is a decimal digit.
pub open spec fn all_dec_digits(s: Seq<char>) -> bool {
    forall|i: int| 0 <= i < s.len() ==> is_dec_digit(#[trigger] s[i])
}

/// The value of a sequence of decimal digits (0 for the empty sequence).
pub open spec fn digits_val(s: Seq<char>) -> int
    decreases s.len(),
{
    if s.len() == 0 {
        0
    } else {
        digits_val(s.drop_last()) * 10 + (s.last() as int - 48)
    }
}

proof fn lemma_digits_val_nonneg(s: Seq<char>)
    requires
        all_dec_digits(s),
    ensures
        digits_val(s) >= 0,
    decreases s.len(),
{
    if s.len() > 0 {
        assert(all_dec_digits(s.drop_last()));
        lemma_digits_val_nonneg(s.drop_last());
    }
}

proof fn lemma_digits_val_prefix(s: Seq<char>, j: int)
    requires
        all_dec_digits(s),
        0 <= j <= s.len(),
    ensures
        digits_val(s.subrange(0, j)) <= digits_val(s),
    decreases s.len(),
{
    if j == s.len() {
        assert(s.subrange(0, j) =~= s);
    } else {
        assert(all_dec_digits(s.drop_last()));
        lemma_digits_val_prefix(s.drop_last(), j);
        assert(s.drop_last().subrange(0, j) =~= s.subrange(0, j));
        lemma_digits_val_nonneg(s.drop_last());
    }
}

/// What parsing an unsigned decimal number returns: the value of the
/// digits, after an optional leading `+`; or `default` when the text is
/// empty, holds a non-digit, or names a value too large for `u32`.
pub open spec fn parse_u32_spec(s: Seq<char>, default: u32) -> u32 {
    let body = if s.len() > 0 && s[0] == '+' {
        s.subrange(1, s.len() as int)
    } else {
        s
    };
    if body.len() > 0 && all_dec_digits(body) && digits_val(body) <= u32::MAX as int {
        digits_val(body) as u32
    } else {
        default
    }
}

/// Parses `s` as an unsigned decimal number, falling back to `default` on
/// empty, malformed or out-of-range input.
pub fn parse_u32_or(s: &str, default: u32) -> (r: u32)
    ensures
        r == parse_u32_spec(s@, default),
{
    let n = s.unicode_len();
    let start: usize = if n > 0 && s.get_char(0) == '+' {
        1
    } else {
        0
    };
    let ghost body = if start == 1 { s@.subrange(1, n as int) } else { s@ };
    proof {
        assert(body.len() == n - start);
        assert(forall|j: int| 0 <= j < body.len() ==> body[j] == s@[j + start]);
    }
    if start == n {
        return default;
    }
    let mut acc: u32 = 0;
    let mut i: usize = start;
    while i < n
        invariant
            n == s@.len(),
            start <= i <= n,
            start <= 1,
            (start == 1) == (s@.len() > 0 && s@[0] == '+'),
            body == (if start == 1 { s@.subrange(1, n as int) } else { s@ }),
            body.len() == n - start,
            forall|j: int| 0 <= j < body.len() ==> body[j] == s@[j + start],
            all_dec_digits(body.subrange(0, i - start)),
            acc == digits_val(body.subrange(0, i - start)),
        decreases n - i,
    {
        let ghost done = body.subrange(0, i - start);
        let ghost done_next = body.subrange(0, i + 1 - start);
        proof {
            assert(done_next.drop_last() =~= done);
            assert(done_next.last() == s@[i as int]);
        }
        let c = s.get_char(i);
        let cv = c as u32;
        if cv < 48 || cv > 57 {
            // a non-digit in the body: the parse fails as a whole
            assert(!is_dec_digit(body[i - start]));
            return default;
        }
        let d = cv - 48;
        if acc > (u32::MAX - d) / 10 {
            // the digits so far already exceed u32::MAX, and further
            // digits cannot bring the value back down
            proof {
                assert(digits_val(done_next) == acc * 10 + d);
                assert(acc * 10 + d > u32::MAX) by {
                    assert(acc >= (u32::MAX - d) / 10 + 1);
                    assert(((u32::MAX - d) / 10 + 1) * 10 >= u32::MAX - d + 1);
                };
                if all_dec_digits(body) {
                    lemma_digits_val_prefix(body, i + 1 - start);
                }
            }
            return default;
        }
        proof {
            assert(acc * 10 + d <= u32::MAX) by {
                assert(acc <= (u32::MAX - d) / 10);
                assert(acc * 10 <= ((u32::MAX - d) / 10) * 10);
                assert(((u32::MAX - d) / 10) * 10 <= u32::MAX - d);
            };
        }
        acc = acc * 10 + d;
        i = i + 1;
    }
    proof {
        assert(body.subrange(0, (n - start) as int) =~= body);
    }
    acc
}

/// The immutable settings record of the service. It is built once at
/// startup; every job reads a consistent snapshot of it.
#[derive(Debug)]
pub struct ServiceConfig {
    /// Directory watched for new video files.
    pub watch_folder: String,
    /// Allow-list of file extensions, compared without regard to ASCII case.
    pub video_extensions: Vec<String>,
    /// Path or name of the external encoder executable.
    pub ffmpeg_path: String,
    /// Seconds per output segment.
    pub segment_duration: u32,
    /// Encoder speed/quality preset, passed through.
    pub ffmpeg_preset: String,
    /// Encoder quality parameter; lower means higher quality.
    pub ffmpeg_crf: u32,
    /// Audio bitrate string, passed through.
    pub audio_bitrate: String,
}

/// The default watch directory.
pub open spec fn default_watch_folder() -> Seq<char> {
    "/var/watch/videos"@
}

/// The default extension allow-list.
pub open spec fn default_extensions() -> Seq<Seq<char>> {
    seq!["mp4"@, "avi"@, "mkv"@, "mov"@, "wmv"@, "flv"@]
}

/// Two configurations hold the same settings.
pub open spec fn config_eq(a: ServiceConfig, b: ServiceConfig) -> bool {
    a.watch_folder@ == b.watch_folder@ && views_of(a.video_extensions@) == views_of(
        b.video_extensions@,
    ) && a.ffmpeg_path@ == b.ffmpeg_path@ && a.segment_duration == b.segment_duration
        && a.ffmpeg_preset@ == b.ffmpeg_preset@ && a.ffmpeg_crf == b.ffmpeg_crf
        && a.audio_bitrate@ == b.audio_bitrate@
}

impl Clone for ServiceConfig {
    /// An independent snapshot holding the same settings.
    fn clone(&self) -> (r: Self)
        ensures
            config_eq(*self, r),
    {
        let mut exts: Vec<String> = Vec::new();
        let n = self.video_extensions.len();
        let mut i: usize = 0;
        while i < n
            invariant
                n == self.video_extensions@.len(),
                i <= n,
                exts@.len() == i,
                forall|j: int| 0 <= j < i ==> exts@[j]@ == self.video_extensions@[j]@,
            decreases n - i,
        {
            exts.push(self.video_extensions[i].clone());
            i = i + 1;
        }
        let r = ServiceConfig {
            watch_folder: self.watch_folder.clone(),
            video_extensions: exts,
            ffmpeg_path: self.ffmpeg_path.clone(),
            segment_duration: self.segment_duration,
            ffmpeg_preset: self.ffmpeg_preset.clone(),
            ffmpeg_crf: self.ffmpeg_crf,
            audio_bitrate: self.audio_bitrate.clone(),
        };
        proof {
            assert(views_of(r.video_extensions@) =~= views_of(self.video_extensions@));
        }
        r
    }
}

/// Whether `c` holds the documented default for every setting.
pub open spec fn is_default_config(c: ServiceConfig) -> bool {
    c.watch_folder@ == default_watch_folder() && views_of(c.video_extensions@)
        == default_extensions() && c.ffmpeg_path@ == "ffmpeg"@ && c.segment_duration == 4
        && c.ffmpeg_preset@ == "medium"@ && c.ffmpeg_crf == 23 && c.audio_bitrate@ == "128k"@
}

fn default_extension_vec() -> (r: Vec<String>)
    ensures
        views_of(r@) == default_extensions(),
{
    let mut v: Vec<String> = Vec::new();
    v.push(String::from_str("mp4"));
    v.push(String::from_str("avi"));
    v.push(String::from_str("mkv"));
    v.push(String::from_str("mov"));
    v.push(String::from_str("wmv"));
    v.push(String::from_str("flv"));
    proof {
        assert(views_of(v@) =~= default_extensions());
    }
    v
}

impl Default for ServiceConfig {
    /// The documented default configuration.
    fn default() -> (c: Self)
        ensures
            is_default_config(c),
    {
        ServiceConfig {
            watch_folder: String::from_str("/var/watch/videos"),
            video_extensions: default_extension_vec(),
            ffmpeg_path: String::from_str("ffmpeg"),
            segment_duration: 4,
            ffmpeg_preset: String::from_str("medium"),
            ffmpeg_crf: 23,
            audio_bitrate: String::from_str("128k"),
        }
    }
}

/// Builds the configuration from the raw environment values, `None`
/// standing for an unset (or undecodable) variable. A missing value takes
/// its default; a malformed numeric value falls back to its default
/// silently; the extension list is split at commas and trimmed.
pub fn config_from_env_values(
    watch_folder: Option<String>,
    video_extensions: Option<String>,
    ffmpeg_path: Option<String>,
    segment_duration: Option<String>,
    ffmpeg_preset: Option<String>,
    ffmpeg_crf: Option<String>,
    audio_bitrate: Option<String>,
) -> (c: ServiceConfig)
    ensures
        c.watch_folder@ == (match watch_folder {
            Some(s) => s@,
            None => default_watch_folder(),
        }),
        views_of(c.video_extensions@) == (match video_extensions {
            Some(s) => trimmed_split(s@),
            None => default_extensions(),
        }),
        c.ffmpeg_path@ == (match ffmpeg_path {
            Some(s) => s@,
            None => "ffmpeg"@,
        }),
        c.segment_duration == (match segment_duration {
            Some(s) => parse_u32_spec(s@, 4),
            None => 4u32,
        }),
        c.ffmpeg_preset@ == (match ffmpeg_preset {
            Some(s) => s@,
            None => "medium"@,
        }),
        c.ffmpeg_crf == (match ffmpeg_crf {
            Some(s) => parse_u32_spec(s@, 23),
            None => 23u32,
        }),
        c.audio_bitrate@ == (match audio_bitrate {
            Some(s) => s@,
            None => "128k"@,
        }),
{
    ServiceConfig {
        watch_folder: match watch_folder {
            Some(s) => s,
            None => String::from_str("/var/watch/videos"),
        },
        video_extensions: match video_extensions {
            Some(s) => parse_extensions(s.as_str()),
            None => default_extension_vec(),
        },
        ffmpeg_path: match ffmpeg_path {
            Some(s) => s,
            None => String::from_str("ffmpeg"),
        },
        segment_duration: match segment_duration {
            Some(s) => parse_u32_or(s.as_str(), 4),
            None => 4,
        },
        ffmpeg_preset: match ffmpeg_preset {
            Some(s) => s,
            None => String::from_str("medium"),
        },
        ffmpeg_crf: match ffmpeg_crf {
            Some(s) => parse_u32_or(s.as_str(), 23),
            None => 23,
        },
        audio_bitrate: match audio_bitrate {
            Some(s) => s,
            None => String::from_str("128k"),
        },
    }
}

} // verus!
