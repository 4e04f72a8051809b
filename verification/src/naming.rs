//! Timestamps and artifact names.
//!
//! Every artifact of one cycle carries the cycle's single capture-local
//! timestamp in its name; the timelapse builder later finds a day's
//! artifacts by the date part of that name. The formats are pinned exactly:
//! `{prefix}_{YYYYMMDD_HHMMSS}.png` for a combined artifact,
//! `{prefix}_{YYYYMMDD_HHMMSS}_{width}.png` for a per-display artifact,
//! `{prefix}_{YYYYMMDD}*.png` as the day glob, and
//! `{prefix}_{YYYYMMDD}.mp4` for the video.

use vstd::prelude::*;
use vstd::string::*;

verus! {

/// A calendar date.
pub struct Date {
    pub year: u16,
    pub month: u8,
    pub day: u8,
}

impl Date {
    pub open spec fn wf(&self) -> bool {
        &&& self.year <= 9999
        &&& 1 <= self.month <= 12
        &&& 1 <= self.day <= 31
    }
}

/// One cycle's capture-local timestamp, at second resolution. It is taken
/// once per cycle and passed in explicitly, so every artifact of the cycle
/// shares it and tests can inject a deterministic one.
pub struct Timestamp {
    pub date: Date,
    pub hour: u8,
    pub minute: u8,
    pub second: u8,
}

impl Timestamp {
    pub open spec fn wf(&self) -> bool {
        &&& self.date.wf()
        &&& self.hour <= 23
        &&& self.minute <= 59
        &&& self.second <= 59
    }
}

/// The decimal digit character for `n` in `0..10`.
pub open spec fn digit(n: int) -> char {
    if n == 0 {
        '0'
    } else if n == 1 {
        '1'
    } else if n == 2 {
        '2'
    } else if n == 3 {
        '3'
    } else if n == 4 {
        '4'
    } else if n == 5 {
        '5'
    } else if n == 6 {
        '6'
    } else if n == 7 {
        '7'
    } else if n == 8 {
        '8'
    } else {
        '9'
    }
}

/// `n` in `0..100`, zero-padded to two digits.
pub open spec fn two_digits(n: int) -> Seq<char> {
    seq![digit(n / 10), digit(n % 10)]
}

/// `n` in `0..10000`, zero-padded to four digits.
pub open spec fn four_digits(n: int) -> Seq<char> {
    seq![digit(n / 1000), digit((n / 100) % 10), digit((n / 10) % 10), digit(n % 10)]
}

/// `n >= 0` in ordinary decimal, no padding, no sign.
pub open spec fn decimal(n: int) -> Seq<char>
    decreases n,
{
    if n < 10 {
        seq![digit(n)]
    } else {
        decimal(n / 10).push(digit(n % 10))
    }
}

/// `YYYYMMDD`.
pub open spec fn date_compact(d: Date) -> Seq<char> {
    four_digits(d.year as int) + two_digits(d.month as int) + two_digits(d.day as int)
}

/// `YYYYMMDD_HHMMSS`.
pub open spec fn timestamp_compact(t: Timestamp) -> Seq<char> {
    date_compact(t.date) + seq!['_'] + two_digits(t.hour as int) + two_digits(t.minute as int)
        + two_digits(t.second as int)
}

/// `.png`
pub open spec fn png_ext() -> Seq<char> {
    seq!['.', 'p', 'n', 'g']
}

/// `{prefix}_{YYYYMMDD}`: the part shared by every artifact of one day.
pub open spec fn day_stem(prefix: Seq<char>, d: Date) -> Seq<char> {
    prefix + seq!['_'] + date_compact(d)
}

/// `{prefix}_{YYYYMMDD_HHMMSS}.png`: the combined artifact of one cycle.
pub open spec fn combined_name(prefix: Seq<char>, t: Timestamp) -> Seq<char> {
    prefix + seq!['_'] + timestamp_compact(t) + png_ext()
}

/// `{prefix}_{YYYYMMDD_HHMMSS}_{width}.png`: one display's artifact; the
/// width suffix disambiguates displays captured in the same second.
pub open spec fn per_display_name(prefix: Seq<char>, t: Timestamp, width: int) -> Seq<char> {
    prefix + seq!['_'] + timestamp_compact(t) + seq!['_'] + decimal(width) + png_ext()
}

/// `{prefix}_{YYYYMMDD}*.png`: the glob handed to the muxer for one day.
pub open spec fn day_glob(prefix: Seq<char>, d: Date) -> Seq<char> {
    day_stem(prefix, d) + seq!['*'] + png_ext()
}

/// `{prefix}_{YYYYMMDD}.mp4`: the video built from one day's artifacts.
pub open spec fn video_name(prefix: Seq<char>, d: Date) -> Seq<char> {
    day_stem(prefix, d) + seq!['.', 'm', 'p', '4']
}

/// `name` is matched by the day glob: it starts with `{prefix}_{YYYYMMDD}`
/// and ends with `.png`.
pub open spec fn matches_day(name: Seq<char>, prefix: Seq<char>, d: Date) -> bool {
    let stem = day_stem(prefix, d);
    &&& name.len() >= stem.len() + 4
    &&& name.subrange(0, stem.len() as int) == stem
    &&& name.subrange(name.len() - 4, name.len() as int) == png_ext()
}

/// The one-character string holding the digit character for `d`.
fn digit_str(d: u8) -> (s: &'static str)
    requires
        d < 10,
    ensures
        s@ == seq![digit(d as int)],
{
    if d == 0 {
        proof {
            reveal_strlit("0");
            assert("0"@ =~= seq![digit(d as int)]);
        }
        "0"
    } else if d == 1 {
        proof {
            reveal_strlit("1");
            assert("1"@ =~= seq![digit(d as int)]);
        }
        "1"
    } else if d == 2 {
        proof {
            reveal_strlit("2");
            assert("2"@ =~= seq![digit(d as int)]);
        }
        "2"
    } else if d == 3 {
        proof {
            reveal_strlit("3");
            assert("3"@ =~= seq![digit(d as int)]);
        }
        "3"
    } else if d == 4 {
        proof {
            reveal_strlit("4");
            assert("4"@ =~= seq![digit(d as int)]);
        }
        "4"
    } else if d == 5 {
        proof {
            reveal_strlit("5");
            assert("5"@ =~= seq![digit(d as int)]);
        }
        "5"
    } else if d == 6 {
        proof {
            reveal_strlit("6");
            assert("6"@ =~= seq![digit(d as int)]);
        }
        "6"
    } else if d == 7 {
        proof {
            reveal_strlit("7");
            assert("7"@ =~= seq![digit(d as int)]);
        }
        "7"
    } else if d == 8 {
        proof {
            reveal_strlit("8");
            assert("8"@ =~= seq![digit(d as int)]);
        }
        "8"
    } else {
        proof {
            reveal_strlit("9");
            assert("9"@ =~= seq![digit(d as int)]);
        }
        "9"
    }
}

/// Append `n` zero-padded to two digits.
fn push_two(s: &mut String, n: u8)
    requires
        n < 100,
    ensures
        final(s)@ == old(s)@ + two_digits(n as int),
{
    let ghost before = s@;
    s.append(digit_str(n / 10));
    s.append(digit_str(n % 10));
    proof {
        assert(s@ =~= before + two_digits(n as int));
    }
}

/// Append `n` zero-padded to four digits.
fn push_four(s: &mut String, n: u16)
    requires
        n < 10000,
    ensures
        final(s)@ == old(s)@ + four_digits(n as int),
{
    let ghost before = s@;
    s.append(digit_str((n / 1000) as u8));
    s.append(digit_str(((n / 100) % 10) as u8));
    s.append(digit_str(((n / 10) % 10) as u8));
    s.append(digit_str((n % 10) as u8));
    proof {
        assert(s@ =~= before + four_digits(n as int));
    }
}

/// Append `n` in ordinary decimal.
fn push_decimal(s: &mut String, n: usize)
    ensures
        final(s)@ == old(s)@ + decimal(n as int),
    decreases n,
{
    if n < 10 {
        s.append(digit_str(n as u8));
        proof {
            assert(old(s)@ + seq![digit(n as int)] =~= old(s)@ + decimal(n as int));
        }
    } else {
        push_decimal(s, n / 10);
        s.append(digit_str((n % 10) as u8));
        proof {
            assert(old(s)@ + decimal(n as int / 10) + seq![digit(n as int % 10)] =~= old(s)@
                + decimal(n as int));
        }
    }
}

/// Append the compact date `YYYYMMDD`.
fn push_date(s: &mut String, d: &Date)
    requires
        d.wf(),
    ensures
        final(s)@ == old(s)@ + date_compact(*d),
{
    let ghost before = s@;
    push_four(s, d.year);
    push_two(s, d.month);
    push_two(s, d.day);
    proof {
        assert(s@ =~= before + date_compact(*d));
    }
}

/// Append the compact timestamp `YYYYMMDD_HHMMSS`.
fn push_timestamp(s: &mut String, t: &Timestamp)
    requires
        t.wf(),
    ensures
        final(s)@ == old(s)@ + timestamp_compact(*t),
{
    let ghost before = s@;
    push_date(s, &t.date);
    s.append("_");
    push_two(s, t.hour);
    push_two(s, t.minute);
    push_two(s, t.second);
    proof {
        reveal_strlit("_");
        assert("_"@ =~= seq!['_']);
        assert(s@ =~= before + timestamp_compact(*t));
    }
}

/// Append `.png`.
fn push_png_ext(s: &mut String)
    ensures
        final(s)@ == old(s)@ + png_ext(),
{
    s.append(".png");
    proof {
        reveal_strlit(".png");
        assert(".png"@ =~= png_ext());
    }
}

/// Name of the combined artifact of the cycle stamped `t`.
pub fn combined_filename(prefix: &str, t: &Timestamp) -> (s: String)
    requires
        t.wf(),
    ensures
        s@ == combined_name(prefix@, *t),
{
    let mut s = String::from_str(prefix);
    s.append("_");
    push_timestamp(&mut s, t);
    push_png_ext(&mut s);
    proof {
        reveal_strlit("_");
        assert("_"@ =~= seq!['_']);
        assert(s@ =~= combined_name(prefix@, *t));
    }
    s
}

/// Name of one display's artifact in the cycle stamped `t`; `width` is the
/// display's width in pixels.
pub fn per_display_filename(prefix: &str, t: &Timestamp, width: usize) -> (s: String)
    requires
        t.wf(),
    ensures
        s@ == per_display_name(prefix@, *t, width as int),
{
    let mut s = String::from_str(prefix);
    s.append("_");
    push_timestamp(&mut s, t);
    s.append("_");
    push_decimal(&mut s, width);
    push_png_ext(&mut s);
    proof {
        reveal_strlit("_");
        assert("_"@ =~= seq!['_']);
        assert(s@ =~= per_display_name(prefix@, *t, width as int));
    }
    s
}

/// The glob pattern that selects all of day `d`'s artifacts.
pub fn day_glob_pattern(prefix: &str, d: &Date) -> (s: String)
    requires
        d.wf(),
    ensures
        s@ == day_glob(prefix@, *d),
{
    let mut s = String::from_str(prefix);
    s.append("_");
    push_date(&mut s, d);
    s.append("*");
    push_png_ext(&mut s);
    proof {
        reveal_strlit("_");
        reveal_strlit("*");
        assert("_"@ =~= seq!['_']);
        assert("*"@ =~= seq!['*']);
        assert(s@ =~= day_glob(prefix@, *d));
    }
    s
}

/// Name of the video built from day `d`'s artifacts.
pub fn video_filename(prefix: &str, d: &Date) -> (s: String)
    requires
        d.wf(),
    ensures
        s@ == video_name(prefix@, *d),
{
    let mut s = String::from_str(prefix);
    s.append("_");
    push_date(&mut s, d);
    s.append(".mp4");
    proof {
        reveal_strlit("_");
        reveal_strlit(".mp4");
        assert("_"@ =~= seq!['_']);
        assert(".mp4"@ =~= seq!['.', 'm', 'p', '4']);
        assert(s@ =~= video_name(prefix@, *d));
    }
    s
}

/// Does `name` belong to day `d` of this prefix — would the day glob
/// `{prefix}_{YYYYMMDD}*.png` select it?
pub fn file_matches_day(name: &str, prefix: &str, d: &Date) -> (r: bool)
    requires
        d.wf(),
        prefix@.len() + 13 <= usize::MAX,
    ensures
        r == matches_day(name@, prefix@, *d),
{
    let mut stem = String::from_str(prefix);
    stem.append("_");
    push_date(&mut stem, d);
    proof {
        reveal_strlit("_");
        assert("_"@ =~= seq!['_']);
        assert(stem@ =~= day_stem(prefix@, *d));
    }
    let slen = stem.as_str().unicode_len();
    let nlen = name.unicode_len();
    if nlen < slen || nlen - slen < 4 {
        return false;
    }
    let mut i: usize = 0;
    while i < slen
        invariant
            stem@ == day_stem(prefix@, *d),
            slen == stem@.len(),
            nlen == name@.len(),
            slen + 4 <= nlen,
            i <= slen,
            forall|j: int| 0 <= j < i ==> name@[j] == stem@[j],
        decreases slen - i,
    {
        if name.get_char(i) != stem.as_str().get_char(i) {
            proof {
                assert(name@.subrange(0, slen as int) != day_stem(prefix@, *d)) by {
                    if name@.subrange(0, slen as int) == day_stem(prefix@, *d) {
                        assert(name@.subrange(0, slen as int)[i as int] == name@[i as int]);
                    }
                }
            }
            return false;
        }
        i = i + 1;
    }
    let ext_ok = name.get_char(nlen - 4) == '.' && name.get_char(nlen - 3) == 'p' && name.get_char(
        nlen - 2,
    ) == 'n' && name.get_char(nlen - 1) == 'g';
    proof {
        assert(name@.subrange(0, slen as int) =~= day_stem(prefix@, *d));
        if ext_ok {
            assert(name@.subrange(nlen - 4, nlen as int) =~= png_ext());
        } else {
            assert(name@.subrange(nlen - 4, nlen as int) != png_ext()) by {
                if name@.subrange(nlen - 4, nlen as int) == png_ext() {
                    assert(name@.subrange(nlen - 4, nlen as int)[0] == name@[nlen - 4]);
                    assert(name@.subrange(nlen - 4, nlen as int)[1] == name@[nlen - 3]);
                    assert(name@.subrange(nlen - 4, nlen as int)[2] == name@[nlen - 2]);
                    assert(name@.subrange(nlen - 4, nlen as int)[3] == name@[nlen - 1]);
                }
            }
        }
    }
    ext_ok
}

} // verus!
