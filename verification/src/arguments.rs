use vstd::prelude::*;

use crate::decimal::{
    all_decimal_digits, decimal_of, digit_char, lemma_decimal_of_prefix, spec_decimal_text,
};

verus! {

/// Which variant stream of the master playlist to download.
#[derive(Debug, Clone, Copy, PartialEq, Eq, Structural)]
pub enum StreamQuality {
    Maximum,
    Specific(u8),
    Select,
}

/// Options of the download action.
#[derive(Debug)]
pub struct DownloadArguments {
    pub mpv: bool,
    pub output_file: Option<String>,
    pub stream_quality_value: StreamQuality,
}

/// What the program was asked to do with the playlist.
#[derive(Debug)]
pub enum Action {
    Download(DownloadArguments),
    List,
}

/// How much diagnostic output the program prints.
#[derive(Debug, Clone, Copy, PartialEq, Eq, Structural)]
pub enum VerboseLevel {
    Quiet,
    Medium,
    Max,
}

/// Everything the command line asks for.
#[derive(Debug)]
pub struct AppArguments {
    pub input: String,
    pub verbose: VerboseLevel,
    pub action: Action,
}

/// Command line values that cannot be turned into arguments.
#[derive(Debug, Clone, Copy, PartialEq, Eq, Structural)]
pub enum ArgumentError {
    /// The verbose level is none of "0", "1", "2".
    InvalidVerboseLevel,
    /// The quality is none of "max", "select" or a decimal `u8`.
    InvalidQuality,
}

/// Numeric value of an ASCII decimal digit, if `c` is one.
pub open spec fn digit_value(c: char) -> Option<int> {
    if '0' <= c && c <= '9' {
        Some(c as int - '0' as int)
    } else {
        None
    }
}

pub open spec fn all_digits(s: Seq<char>) -> bool {
    forall|i: int| 0 <= i < s.len() ==> (#[trigger] digit_value(s[i])) is Some
}

/// Digit values of the characters of `s` (meaningful where they are digits).
pub open spec fn char_digit_values(s: Seq<char>) -> Seq<int> {
    s.map_values(|c: char| c as int - '0' as int)
}

/// Value of a string of decimal digits, most significant digit first.
pub open spec fn digits_value(s: Seq<char>) -> int {
    decimal_of(char_digit_values(s))
}

/// The digits of a decimal `u8` text: everything after an optional leading `+`.
pub open spec fn unsigned_digits(s: Seq<char>) -> Seq<char> {
    if s.len() > 0 && s[0] == '+' {
        s.drop_first()
    } else {
        s
    }
}

/// Decimal reading of a `u8`, as `str::parse::<u8>` accepts it: an optional `+`,
/// then one or more ASCII digits whose value is at most 255.
pub open spec fn spec_parse_u8(s: Seq<char>) -> Option<u8> {
    let digits = unsigned_digits(s);
    if digits.len() > 0 && all_digits(digits) && digits_value(digits) <= 255 {
        Some(digits_value(digits) as u8)
    } else {
        None
    }
}

/// Verbose level named by a command line value.
pub open spec fn spec_verbose_level(value: Seq<char>) -> Option<VerboseLevel> {
    if value == "0"@ {
        Some(VerboseLevel::Quiet)
    } else if value == "1"@ {
        Some(VerboseLevel::Medium)
    } else if value == "2"@ {
        Some(VerboseLevel::Max)
    } else {
        None
    }
}

/// Stream quality named by a command line value; maximum when absent.
pub open spec fn spec_stream_quality(value: Option<Seq<char>>) -> Option<StreamQuality> {
    match value {
        None => Some(StreamQuality::Maximum),
        Some(v) => if v == "max"@ {
            Some(StreamQuality::Maximum)
        } else if v == "select"@ {
            Some(StreamQuality::Select)
        } else {
            match spec_parse_u8(v) {
                Some(index) => Some(StreamQuality::Specific(index)),
                None => None,
            }
        },
    }
}

pub open spec fn opt_view(value: Option<&str>) -> Option<Seq<char>> {
    match value {
        Some(v) => Some(v@),
        None => None,
    }
}

proof fn lemma_char_digit_values(s: Seq<char>)
    requires
        all_digits(s),
    ensures
        all_decimal_digits(char_digit_values(s)),
{
    assert forall|k: int| 0 <= k < char_digit_values(s).len() implies 0 <= #[trigger] char_digit_values(
        s,
    )[k] <= 9 by {
        assert(digit_value(s[k]) is Some);
    }
}

/// The decimal text of a `u8` reads back as that `u8`: the indices listed for
/// the quality option are accepted by it.
pub proof fn lemma_decimal_text_reads_back(n: nat)
    requires
        n <= 255,
    ensures
        spec_parse_u8(spec_decimal_text(n)) == Some(n as u8),
{
    lemma_decimal_text_digits(n);
    let t = spec_decimal_text(n);
    assert(digit_value(t[0]) is Some);
    assert(unsigned_digits(t) == t);
}

proof fn lemma_decimal_text_digits(n: nat)
    ensures
        spec_decimal_text(n).len() > 0,
        all_digits(spec_decimal_text(n)),
        digits_value(spec_decimal_text(n)) == n,
    decreases n,
{
    let t = spec_decimal_text(n);
    if n < 10 {
        assert(digit_char(n as int) as int == n + 48);
        assert(char_digit_values(t).drop_last() =~= Seq::<int>::empty());
        assert(char_digit_values(t).last() == n);
        assert(decimal_of(char_digit_values(t).drop_last()) == 0);
        assert(decimal_of(char_digit_values(t)) == n);
        assert(digit_value(t[0]) is Some);
    } else {
        let h = spec_decimal_text(n / 10);
        lemma_decimal_text_digits(n / 10);
        assert(t == h.push(digit_char((n % 10) as int)));
        assert(digit_char((n % 10) as int) as int == n % 10 + 48);
        assert(char_digit_values(t).drop_last() =~= char_digit_values(h));
        assert(char_digit_values(t).last() == n % 10);
        assert(decimal_of(char_digit_values(t)) == decimal_of(char_digit_values(h)) * 10 + n % 10);
        assert((n / 10) * 10 + n % 10 == n);
        assert forall|k: int| 0 <= k < t.len() implies (#[trigger] digit_value(t[k])) is Some by {
            if k < h.len() {
                assert(t[k] == h[k]);
                assert(digit_value(h[k]) is Some);
            }
        }
    }
}

/// Characters of `a` and `b` are the same.
pub fn text_eq(a: &str, b: &str) -> (res: bool)
    ensures
        res == (a@ == b@),
{
    let n = a.unicode_len();
    if n != b.unicode_len() {
        return false;
    }
    let mut i: usize = 0;
    while i < n
        invariant
            n == a@.len(),
            n == b@.len(),
            i <= n,
            forall|j: int| 0 <= j < i ==> a@[j] == b@[j],
        decreases n - i,
    {
        if a.get_char(i) != b.get_char(i) {
            return false;
        }
        i += 1;
    }
    assert(a@ =~= b@);
    true
}

/// Reads a decimal `u8` the way `str::parse::<u8>` does.
pub fn parse_u8_decimal(s: &str) -> (res: Option<u8>)
    ensures
        res == spec_parse_u8(s@),
{
    let n = s.unicode_len();
    let mut start: usize = 0;
    if n > 0 && s.get_char(0) == '+' {
        start = 1;
    }
    let ghost digits = s@.subrange(start as int, n as int);
    assert(digits =~= unsigned_digits(s@));
    if start >= n {
        return None;
    }
    let mut acc: u32 = 0;
    let mut i: usize = start;
    while i < n
        invariant
            start < n,
            start <= i <= n,
            n == s@.len(),
            digits == s@.subrange(start as int, n as int),
            digits == unsigned_digits(s@),
            acc <= 255,
            all_digits(digits.take(i - start)),
            acc == digits_value(digits.take(i - start)),
        decreases n - i,
    {
        let c = s.get_char(i);
        let code = c as u32;
        assert(digits[i - start] == c);
        if code < 48 || code > 57 {
            assert(digit_value(digits[i - start]) is None);
            return None;
        }
        let ghost prefix = digits.take(i + 1 - start);
        assert(prefix.drop_last() =~= digits.take(i - start));
        assert(prefix.last() == c);
        assert(char_digit_values(prefix).drop_last() =~= char_digit_values(digits.take(i - start)));
        acc = acc * 10 + (code - 48);
        assert(all_digits(prefix)) by {
            assert forall|j: int| 0 <= j < prefix.len() implies (#[trigger] digit_value(
                prefix[j],
            )) is Some by {
                if j < prefix.len() - 1 {
                    assert(prefix[j] == digits.take(i - start)[j]);
                }
            }
        }
        if acc > 255 {
            proof {
                if all_digits(digits) {
                    lemma_char_digit_values(digits);
                    lemma_decimal_of_prefix(char_digit_values(digits), i + 1 - start);
                    assert(char_digit_values(digits).take(i + 1 - start) =~= char_digit_values(
                        prefix,
                    ));
                }
            }
            return None;
        }
        i += 1;
    }
    assert(digits.take(n - start) =~= digits);
    Some(acc as u8)
}

/// Reads the verbose level of the command line: "0", "1" or "2".
pub fn verbose_level_from_value(value: &str) -> (res: Option<VerboseLevel>)
    ensures
        res == spec_verbose_level(value@),
{
    proof {
        reveal_strlit("0");
        reveal_strlit("1");
        reveal_strlit("2");
    }
    if text_eq(value, "0") {
        Some(VerboseLevel::Quiet)
    } else if text_eq(value, "1") {
        Some(VerboseLevel::Medium)
    } else if text_eq(value, "2") {
        Some(VerboseLevel::Max)
    } else {
        None
    }
}

/// Reads the stream quality of the command line: "max", "select" or a stream
/// index; the maximum quality when the value is absent.
pub fn stream_quality_from_value(value: Option<&str>) -> (res: Option<StreamQuality>)
    ensures
        res == spec_stream_quality(opt_view(value)),
{
    match value {
        None => Some(StreamQuality::Maximum),
        Some(v) => {
            if text_eq(v, "max") {
                Some(StreamQuality::Maximum)
            } else if text_eq(v, "select") {
                Some(StreamQuality::Select)
            } else {
                match parse_u8_decimal(v) {
                    Some(index) => Some(StreamQuality::Specific(index)),
                    None => None,
                }
            }
        },
    }
}

/// Turns the values that the command line holds into the program's arguments.
/// With `list_qualities` the action is `List` and the download options are not read.
pub fn arguments_from_values(
    input: String,
    verbose: &str,
    list_qualities: bool,
    output_file: Option<String>,
    mpv: bool,
    quality: Option<&str>,
) -> (res: Result<AppArguments, ArgumentError>)
    ensures
        (res matches Err(ArgumentError::InvalidVerboseLevel)) <==> spec_verbose_level(verbose@) is None,
        (res matches Err(ArgumentError::InvalidQuality)) <==> (spec_verbose_level(verbose@) is Some
            && !list_qualities && spec_stream_quality(opt_view(quality)) is None),
        res matches Ok(args) ==> {
            &&& args.input == input
            &&& Some(args.verbose) == spec_verbose_level(verbose@)
            &&& list_qualities ==> args.action is List
            &&& !list_qualities ==> (args.action matches Action::Download(d) && d.mpv == mpv
                && d.output_file == output_file && Some(d.stream_quality_value)
                == spec_stream_quality(opt_view(quality)))
        },
{
    let verbose = match verbose_level_from_value(verbose) {
        Some(level) => level,
        None => {
            return Err(ArgumentError::InvalidVerboseLevel);
        },
    };
    if list_qualities {
        return Ok(AppArguments { input, verbose, action: Action::List });
    }
    let stream_quality_value = match stream_quality_from_value(quality) {
        Some(q) => q,
        None => {
            return Err(ArgumentError::InvalidQuality);
        },
    };
    Ok(
        AppArguments {
            input,
            verbose,
            action: Action::Download(DownloadArguments { mpv, output_file, stream_quality_value }),
        },
    )
}

} // verus!
