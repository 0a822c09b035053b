use vstd::prelude::*;

verus! {

pub open spec fn is_digit_char(c: char) -> bool {
    '0' <= c && c <= '9'
}

/// Text of a year as `%Y` writes the years the clock can give (1969 on): four
/// digits, or, past 9999, a `+` and five or more digits.
pub open spec fn is_year_text(y: Seq<char>) -> bool {
    ||| y.len() == 4 && forall|k: int| 0 <= k < 4 ==> is_digit_char(#[trigger] y[k])
    ||| y.len() >= 6 && y[0] == '+' && forall|k: int|
        1 <= k < y.len() ==> is_digit_char(#[trigger] y[k])
}

/// Shape of a local time written with the pattern "%Y-%m-%d %H:%M:%S": a year,
/// then "-MM-DD hh:mm:ss" with two digits for each field.
pub open spec fn is_local_timestamp(s: Seq<char>) -> bool {
    let n = s.len() as int;
    &&& n >= 19
    &&& is_year_text(s.subrange(0, n - 15))
    &&& s[n - 15] == '-' && is_digit_char(s[n - 14]) && is_digit_char(s[n - 13])
    &&& s[n - 12] == '-' && is_digit_char(s[n - 11]) && is_digit_char(s[n - 10])
    &&& s[n - 9] == ' ' && is_digit_char(s[n - 8]) && is_digit_char(s[n - 7])
    &&& s[n - 6] == ':' && is_digit_char(s[n - 5]) && is_digit_char(s[n - 4])
    &&& s[n - 3] == ':' && is_digit_char(s[n - 2]) && is_digit_char(s[n - 1])
}

/// Calls `chrono::Local::now()` and formats it with `pattern` (`format`, then
/// `to_string`). The time depends on the clock and the time zone; what is
/// claimed is the shape every such text has: chrono writes `%Y` as four
/// zero-padded digits for years up to 9999 and as `+` and the digits past it,
/// and `%m`, `%d`, `%H`, `%M`, `%S` as two zero-padded digits. Only the pattern the program uses is admitted, as an invalid
/// pattern makes `to_string` panic. `chrono` panics as well when the system
/// clock reads a time before 1970, which no argument can rule out.
#[verifier::external_body]
fn format_local_now(pattern: &str) -> (res: String)
    requires
        pattern@ == "%Y-%m-%d %H:%M:%S"@,
    ensures
        is_local_timestamp(res@),
{
    chrono::Local::now().format(pattern).to_string()
}

/// Name of the output file made from a timestamp text: "<timestamp>.ts".
pub fn default_file_name(timestamp: &str) -> (res: String)
    ensures
        res@ == timestamp@ + ".ts"@,
{
    let name = String::from_str(timestamp);
    name.concat(".ts")
}

/// Path of the file the stream is written to: the one given, else
/// "<local date and time>.ts" in the current folder.
pub fn output_file_path(path: Option<String>) -> (res: String)
    ensures
        path matches Some(p) ==> res == p,
        path is None ==> exists|stamp: Seq<char>| res@ == stamp + ".ts"@ && is_local_timestamp(stamp),
{
    match path {
        Some(p) => p,
        None => {
            let stamp = format_local_now("%Y-%m-%d %H:%M:%S");
            let name = default_file_name(stamp.as_str());
            assert(name@ == stamp@ + ".ts"@ && is_local_timestamp(stamp@));
            name
        },
    }
}

} // verus!
