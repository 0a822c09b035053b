use vstd::prelude::*;

use crate::decimal::{all_decimal_digits, decimal_of, lemma_decimal_of_prefix};

verus! {

/// Largest value of an `i32`, the type of a byte range length.
pub const MAX_BYTE_RANGE_LENGTH: u64 = 2147483647;

pub open spec fn is_digit_byte(b: u8) -> bool {
    48 <= b && b <= 57
}

/// Bytes that end an attribute value: `,`, `\r`, `\n` and `"`.
pub open spec fn is_value_end(b: u8) -> bool {
    b == 44 || b == 13 || b == 10 || b == 34
}

/// The bytes of "BYTERANGE=".
pub open spec fn byterange_key() -> Seq<u8> {
    seq![66u8, 89u8, 84u8, 69u8, 82u8, 65u8, 78u8, 71u8, 69u8, 61u8]
}

/// Digit values of the bytes of `s` (meaningful where they are ASCII digits).
pub open spec fn byte_digit_values(s: Seq<u8>) -> Seq<int> {
    s.map_values(|b: u8| b - 48)
}

/// Value of a string of ASCII decimal digit bytes, most significant first.
pub open spec fn decimal_value(s: Seq<u8>) -> int {
    decimal_of(byte_digit_values(s))
}

pub open spec fn all_digit_bytes(s: Seq<u8>) -> bool {
    forall|k: int| 0 <= k < s.len() ==> is_digit_byte(#[trigger] s[k])
}

/// Whether "BYTERANGE=" stands at `i`.
pub open spec fn key_at(data: Seq<u8>, i: int) -> bool {
    0 <= i && i + 10 <= data.len() && data.subrange(i, i + 10) == byterange_key()
}

/// Where the value of the attribute whose key stands at `i` begins: after the
/// key and an optional opening quote.
pub open spec fn value_start(data: Seq<u8>, i: int) -> int {
    if i + 10 < data.len() && data[i + 10] == 34 {
        i + 11
    } else {
        i + 10
    }
}

/// Whether a byte range starts at `j`: a run of digits `[j, e)` whose value
/// fits an `i32`, followed by a byte that neither continues the run nor ends
/// the attribute value (such as the `@` before the offset).
pub open spec fn byte_range_at(data: Seq<u8>, j: int) -> bool {
    exists|e: int|
        #![trigger data[e]]
        {
            &&& 0 <= j < e < data.len()
            &&& all_digit_bytes(data.subrange(j, e))
            &&& !is_digit_byte(data[e])
            &&& !is_value_end(data[e])
            &&& decimal_value(data.subrange(j, e)) <= MAX_BYTE_RANGE_LENGTH
        }
}

pub open spec fn is_blank(b: u8) -> bool {
    b == 32 || b == 9
}

/// Bytes after which (and spaces or tabs) an attribute of a list can start:
/// `:` after the tag name, `,` after an attribute, `"` after a quoted value.
pub open spec fn is_attribute_lead(b: u8) -> bool {
    b == 58 || b == 44 || b == 34
}

/// Whether an attribute may start at `i`: the nearest byte before `i` that is
/// no space or tab is `:`, `,` or `"`.
pub open spec fn attribute_may_start(data: Seq<u8>, i: int) -> bool {
    exists|q: int|
        #![trigger data[q]]
        0 <= q < i && is_attribute_lead(data[q]) && forall|m: int|
            q < m < i ==> is_blank(#[trigger] data[m])
}

/// Every "BYTERANGE=" in `data` at which an attribute may start is followed by
/// a byte range with an offset.
///
/// `m3u8_rs::parse_media_playlist` panics when the `BYTERANGE` attribute of an
/// `#EXT-X-MAP` tag does not start with an `i32` length followed by more text
/// (so also on a length without an offset). The key of such an attribute is
/// read from where an attribute starts in the tag's list, which is after the
/// tag's `:`, after a `,`, or after a closing `"`, with spaces or tabs between;
/// on data of which this holds, no such attribute can occur.
pub open spec fn byte_ranges_parse(data: Seq<u8>) -> bool {
    forall|i: int|
        #[trigger] key_at(data, i) && attribute_may_start(data, i) ==> byte_range_at(
            data,
            value_start(data, i),
        )
}

/// Whether an attribute may start at `i` (see `attribute_may_start`).
fn attribute_may_start_exec(data: &[u8], i: usize) -> (res: bool)
    requires
        i <= data@.len(),
    ensures
        res == attribute_may_start(data@, i as int),
{
    let mut q: usize = i;
    while q > 0 && (data[q - 1] == 32 || data[q - 1] == 9)
        invariant
            q <= i <= data@.len(),
            forall|m: int| q <= m < i ==> is_blank(#[trigger] data@[m]),
        decreases q,
    {
        q -= 1;
    }
    let res = q > 0 && (data[q - 1] == 58 || data[q - 1] == 44 || data[q - 1] == 34);
    proof {
        if res {
            assert(is_attribute_lead(data@[q - 1]));
        } else {
            assert forall|p: int|
                0 <= p < i && is_attribute_lead(#[trigger] data@[p]) implies !(forall|m: int|
                p < m < i ==> is_blank(#[trigger] data@[m])) by {
                if p < q - 1 {
                    assert(!is_blank(data@[q - 1]));
                } else if p >= q {
                    assert(is_blank(data@[p]));
                }
            }
        }
    }
    res
}

proof fn lemma_byte_digit_values(s: Seq<u8>)
    requires
        all_digit_bytes(s),
    ensures
        all_decimal_digits(byte_digit_values(s)),
{
    assert forall|k: int| 0 <= k < byte_digit_values(s).len() implies 0 <= #[trigger] byte_digit_values(
        s,
    )[k] <= 9 by {
        assert(is_digit_byte(s[k]));
    }
}

/// Whether "BYTERANGE=" stands at `i`.
fn key_at_exec(data: &[u8], i: usize) -> (res: bool)
    requires
        i + 10 <= data@.len(),
    ensures
        res == key_at(data@, i as int),
{
    let res = data[i] == 66 && data[i + 1] == 89 && data[i + 2] == 84 && data[i + 3] == 69
        && data[i + 4] == 82 && data[i + 5] == 65 && data[i + 6] == 78 && data[i + 7] == 71
        && data[i + 8] == 69 && data[i + 9] == 61;
    let ghost sub = data@.subrange(i as int, i + 10);
    proof {
        if res {
            assert(sub =~= byterange_key());
        } else if sub == byterange_key() {
            assert(sub[0] == 66u8 && sub[1] == 89u8 && sub[2] == 84u8 && sub[3] == 69u8 && sub[4]
                == 82u8 && sub[5] == 65u8 && sub[6] == 78u8 && sub[7] == 71u8 && sub[8] == 69u8
                && sub[9] == 61u8);
        }
    }
    res
}

/// Whether a byte range (see `byte_range_at`) starts at `j`.
fn byte_range_at_exec(data: &[u8], j: usize) -> (res: bool)
    requires
        j <= data@.len(),
    ensures
        res == byte_range_at(data@, j as int),
{
    let n = data.len();
    let mut k: usize = j;
    let mut value: u64 = 0;
    while k < n && 48 <= data[k] && data[k] <= 57
        invariant
            j <= k <= n,
            n == data@.len(),
            all_digit_bytes(data@.subrange(j as int, k as int)),
            value == decimal_value(data@.subrange(j as int, k as int)),
            value <= MAX_BYTE_RANGE_LENGTH,
        decreases n - k,
    {
        let ghost run = data@.subrange(j as int, k + 1);
        assert(run.drop_last() =~= data@.subrange(j as int, k as int));
        assert(all_digit_bytes(run)) by {
            assert forall|m: int| 0 <= m < run.len() implies is_digit_byte(#[trigger] run[m]) by {
                if m < run.len() - 1 {
                    assert(run[m] == data@.subrange(j as int, k as int)[m]);
                }
            }
        }
        assert(byte_digit_values(run).drop_last() =~= byte_digit_values(
            data@.subrange(j as int, k as int),
        ));
        assert(byte_digit_values(run).last() == data@[k as int] - 48);
        value = value * 10 + (data[k] - 48) as u64;
        if value > MAX_BYTE_RANGE_LENGTH {
            proof {
                assert forall|e: int|
                    0 <= j < e < data@.len() && all_digit_bytes(data@.subrange(j as int, e))
                        && !is_digit_byte(#[trigger] data@[e]) implies decimal_value(
                    data@.subrange(j as int, e),
                ) > MAX_BYTE_RANGE_LENGTH by {
                    if e <= k {
                        assert(data@.subrange(j as int, k + 1)[e - j] == data@[e]);
                    } else {
                        let s = data@.subrange(j as int, e);
                        lemma_byte_digit_values(s);
                        lemma_decimal_of_prefix(byte_digit_values(s), k + 1 - j);
                        assert(byte_digit_values(s).take(k + 1 - j) =~= byte_digit_values(run));
                    }
                }
            }
            return false;
        }
        k += 1;
    }
    let res = k > j && k < n && !(data[k] == 44 || data[k] == 13 || data[k] == 10 || data[k] == 34);
    proof {
        if res {
            assert(data@[k as int] == data[k as int]);
        } else {
            assert forall|e: int|
                0 <= j < e < data@.len() && all_digit_bytes(data@.subrange(j as int, e))
                    && !is_digit_byte(#[trigger] data@[e]) implies e == k by {
                if e < k {
                    assert(data@.subrange(j as int, k as int)[e - j] == data@[e]);
                } else if e > k {
                    assert(data@.subrange(j as int, e)[k - j] == data@[k as int]);
                }
            }
        }
    }
    res
}

/// Checks that every "BYTERANGE=" in `data` at which an attribute may start is
/// followed by a byte range with an offset, so that the media playlist parser
/// can be run on it.
pub fn byte_ranges_parse_check(data: &[u8]) -> (res: bool)
    ensures
        res == byte_ranges_parse(data@),
{
    let n = data.len();
    if n < 10 {
        assert forall|i: int| !#[trigger] key_at(data@, i) by {}
        return true;
    }
    let mut i: usize = 0;
    while i <= n - 10
        invariant
            n == data@.len(),
            n >= 10,
            i <= n - 9,
            forall|m: int|
                #![trigger key_at(data@, m)]
                0 <= m < i && key_at(data@, m) && attribute_may_start(data@, m) ==> byte_range_at(
                    data@,
                    value_start(data@, m),
                ),
        decreases n - i,
    {
        if key_at_exec(data, i) && attribute_may_start_exec(data, i) {
            let start = if i + 10 < n && data[i + 10] == 34 {
                i + 11
            } else {
                i + 10
            };
            if !byte_range_at_exec(data, start) {
                return false;
            }
        }
        i += 1;
    }
    true
}

} // verus!
