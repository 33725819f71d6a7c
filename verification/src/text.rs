//! Text rendering used by the messages of the engine: decimal numbers,
//! human-readable byte counts and joined lists.
//!
//! Every string the engine builds is specified as a `Seq<char>`, so that the
//! contracts of the validation functions can state their messages exactly.

use vstd::prelude::*;
use vstd::string::*;

verus! {

/// One kibibyte, in bytes.
pub const KIB: u64 = 1024;

/// One mebibyte, in bytes.
pub const MIB: u64 = 1_048_576;

/// One gibibyte, in bytes.
pub const GIB: u64 = 1_073_741_824;

/// One tebibyte, in bytes.
pub const TIB: u64 = 1_099_511_627_776;

/// The text of a single decimal digit.
pub open spec fn digit_text(d: nat) -> Seq<char> {
    if d == 0 {
        "0"@
    } else if d == 1 {
        "1"@
    } else if d == 2 {
        "2"@
    } else if d == 3 {
        "3"@
    } else if d == 4 {
        "4"@
    } else if d == 5 {
        "5"@
    } else if d == 6 {
        "6"@
    } else if d == 7 {
        "7"@
    } else if d == 8 {
        "8"@
    } else {
        "9"@
    }
}

/// The decimal numeral of `n`, without leading zeros.
pub open spec fn decimal(n: nat) -> Seq<char>
    decreases n,
{
    if n < 10 {
        digit_text(n)
    } else {
        decimal(n / 10) + digit_text(n % 10)
    }
}

/// `num / den` rounded to the nearest integer, a tie going to the even one.
pub open spec fn round_half_even(num: nat, den: nat) -> nat
    recommends
        den > 0,
{
    let q = num / den;
    let r = num % den;
    if 2 * r > den || (2 * r == den && q % 2 == 1) {
        q + 1
    } else {
        q
    }
}

/// A count of hundredths written with two decimals: `1234` is `12.34`.
pub open spec fn two_decimals(hundredths: nat) -> Seq<char> {
    decimal(hundredths / 100) + "."@ + digit_text(hundredths / 10 % 10) + digit_text(
        hundredths % 10,
    )
}

/// The index of the unit in which a byte count is shown: the largest of
/// B, KB, MB, GB, TB that does not exceed it.
pub open spec fn unit_index(bytes: nat) -> nat {
    if bytes < KIB {
        0
    } else if bytes < MIB {
        1
    } else if bytes < GIB {
        2
    } else if bytes < TIB {
        3
    } else {
        4
    }
}

/// The number of bytes in the unit with the given index.
pub open spec fn unit_size(index: nat) -> nat {
    if index == 0 {
        1
    } else if index == 1 {
        KIB as nat
    } else if index == 2 {
        MIB as nat
    } else if index == 3 {
        GIB as nat
    } else {
        TIB as nat
    }
}

/// The name of the unit with the given index.
pub open spec fn unit_name(index: nat) -> Seq<char> {
    if index == 0 {
        "B"@
    } else if index == 1 {
        "KB"@
    } else if index == 2 {
        "MB"@
    } else if index == 3 {
        "GB"@
    } else {
        "TB"@
    }
}

/// A byte count as shown to the user: `"0 B"` for zero, otherwise the count
/// in its unit with two decimals, a space and the unit's name.
pub open spec fn format_bytes_text(bytes: nat) -> Seq<char> {
    if bytes == 0 {
        "0 B"@
    } else {
        two_decimals(round_half_even(bytes * 100, unit_size(unit_index(bytes)))) + " "@
            + unit_name(unit_index(bytes))
    }
}

/// A byte count in gibibytes with two decimals, without a unit.
pub open spec fn gibibytes_text(bytes: nat) -> Seq<char> {
    two_decimals(round_half_even(bytes * 100, GIB as nat))
}

/// The items of `parts` with `sep` between each two neighbours.
pub open spec fn join_text(parts: Seq<Seq<char>>, sep: Seq<char>) -> Seq<char>
    decreases parts.len(),
{
    if parts.len() == 0 {
        Seq::empty()
    } else if parts.len() == 1 {
        parts[0]
    } else {
        join_text(parts.drop_last(), sep) + sep + parts.last()
    }
}

/// Whether `part` occurs in `text` as a run of neighbouring characters.
pub open spec fn holds(text: Seq<char>, part: Seq<char>) -> bool {
    exists|i: int, j: int| 0 <= i <= j <= text.len() && #[trigger] text.subrange(i, j) == part
}

/// What is left of `text` once `prefix` is taken from its front, if it
/// starts with `prefix`.
pub open spec fn strip_prefix_text(text: Seq<char>, prefix: Seq<char>) -> Option<Seq<char>> {
    if text.len() >= prefix.len() && text.subrange(0, prefix.len() as int) == prefix {
        Some(text.subrange(prefix.len() as int, text.len() as int))
    } else {
        None
    }
}

/// The first place at or after `from` at which `c` stands in the text, or
/// the length of the text if there is none.
pub open spec fn find_from(text: Seq<char>, c: char, from: int) -> int
    decreases text.len() - from,
{
    if from < 0 || from >= text.len() {
        text.len() as int
    } else if text[from] == c {
        from
    } else {
        find_from(text, c, from + 1)
    }
}

/// The second of the pieces into which the separator `c` cuts a text: what
/// stands between the first `c` and the next, or the end. A text without
/// `c` has no second piece.
pub open spec fn second_piece_text(text: Seq<char>, c: char) -> Option<Seq<char>> {
    let i = find_from(text, c, 0);
    if i >= text.len() {
        None
    } else {
        Some(text.subrange(i + 1, find_from(text, c, i + 1)))
    }
}

/// Whether a text starts with a prefix.
pub open spec fn starts_with_text(text: Seq<char>, prefix: Seq<char>) -> bool {
    strip_prefix_text(text, prefix) is Some
}

/// The views of a vector of strings.
pub open spec fn texts(v: Seq<String>) -> Seq<Seq<char>> {
    v.map_values(|s: String| s@)
}

fn digit_str(d: u8) -> (s: &'static str)
    requires
        d < 10,
    ensures
        s@ == digit_text(d as nat),
{
    if d == 0 {
        "0"
    } else if d == 1 {
        "1"
    } else if d == 2 {
        "2"
    } else if d == 3 {
        "3"
    } else if d == 4 {
        "4"
    } else if d == 5 {
        "5"
    } else if d == 6 {
        "6"
    } else if d == 7 {
        "7"
    } else if d == 8 {
        "8"
    } else {
        "9"
    }
}

/// Writes `n` in decimal.
pub fn decimal_string(n: u128) -> (s: String)
    ensures
        s@ == decimal(n as nat),
    decreases n,
{
    if n < 10 {
        String::from_str(digit_str(n as u8))
    } else {
        let mut s = decimal_string(n / 10);
        s.append(digit_str((n % 10) as u8));
        s
    }
}

/// Divides and rounds to the nearest integer, a tie going to the even one.
pub fn rounded_ratio(num: u128, den: u128) -> (q: u128)
    requires
        0 < den <= u64::MAX,
        num < u128::MAX,
    ensures
        q == round_half_even(num as nat, den as nat),
{
    let q: u128 = num / den;
    let r: u128 = num % den;
    assert(num / den <= num) by (nonlinear_arith)
        requires
            den >= 1,
    ;
    if 2 * r > den || (2 * r == den && q % 2 == 1) {
        q + 1
    } else {
        q
    }
}

/// Writes a count of hundredths with two decimals.
pub fn two_decimals_string(hundredths: u128) -> (s: String)
    ensures
        s@ == two_decimals(hundredths as nat),
{
    let mut s = decimal_string(hundredths / 100);
    s.append(".");
    s.append(digit_str((hundredths / 10 % 10) as u8));
    s.append(digit_str((hundredths % 10) as u8));
    s
}

/// Renders a byte count for display: the count in the largest unit of
/// B, KB, MB, GB, TB that does not exceed it, rounded to two decimals.
pub fn format_bytes(bytes: u64) -> (s: String)
    ensures
        s@ == format_bytes_text(bytes as nat),
{
    format_byte_sum(bytes, 0)
}

/// Renders the sum of two byte counts as `format_bytes` renders one; the
/// sum itself need not fit a `u64`.
pub fn format_byte_sum(a: u64, b: u64) -> (s: String)
    ensures
        s@ == format_bytes_text((a + b) as nat),
{
    let bytes: u128 = a as u128 + b as u128;
    if bytes == 0 {
        return String::from_str("0 B");
    }
    let (unit, name): (u64, &'static str) = if bytes < KIB as u128 {
        (1, "B")
    } else if bytes < MIB as u128 {
        (KIB, "KB")
    } else if bytes < GIB as u128 {
        (MIB, "MB")
    } else if bytes < TIB as u128 {
        (GIB, "GB")
    } else {
        (TIB, "TB")
    };
    let scaled: u128 = bytes * 100;
    let mut s = two_decimals_string(rounded_ratio(scaled, unit as u128));
    s.append(" ");
    s.append(name);
    s
}

/// Renders a byte count in gibibytes with two decimals.
pub fn format_gibibytes(bytes: u64) -> (s: String)
    ensures
        s@ == gibibytes_text(bytes as nat),
{
    let scaled: u128 = bytes as u128 * 100;
    two_decimals_string(rounded_ratio(scaled, GIB as u128))
}

/// Joins the strings of `parts`, with `sep` between each two neighbours.
pub fn join(parts: &Vec<String>, sep: &str) -> (s: String)
    ensures
        s@ == join_text(texts(parts@), sep@),
{
    let mut s = String::new();
    let n: usize = parts.len();
    let mut i: usize = 0;
    while i < n
        invariant
            n == parts.len(),
            i <= n,
            s@ == join_text(texts(parts@.take(i as int)), sep@),
        decreases n - i,
    {
        proof {
            let before = texts(parts@.take(i as int));
            let after = texts(parts@.take(i + 1));
            assert(after.drop_last() =~= before);
            assert(after.last() == parts@[i as int]@);
        }
        if i > 0 {
            s.append(sep);
        }
        s.append(parts[i].as_str());
        i = i + 1;
    }
    proof {
        assert(parts@.take(n as int) =~= parts@);
    }
    s
}

/// Takes `prefix` from the front of `text`, if `text` starts with it.
pub fn strip_prefix<'a>(text: &'a str, prefix: &str) -> (rest: Option<&'a str>)
    ensures
        match rest {
            Some(r) => strip_prefix_text(text@, prefix@) == Some(r@),
            None => strip_prefix_text(text@, prefix@) is None,
        },
{
    let n: usize = text.unicode_len();
    let k: usize = prefix.unicode_len();
    if n >= k {
        let head = String::from_str(text.substring_char(0, k));
        let wanted = String::from_str(prefix);
        if head == wanted {
            assert(prefix@.len() == k);
            return Some(text.substring_char(k, n));
        }
    }
    None
}

/// Decides whether two texts are the same.
pub fn same_text(a: &str, b: &str) -> (r: bool)
    ensures
        r == (a@ == b@),
{
    String::from_str(a) == String::from_str(b)
}

/// `find_from` finds the first place indeed: the place lies between `from`
/// and the length, no place before it holds `c`, and it holds `c` unless
/// it is the length.
pub proof fn lemma_find_from(text: Seq<char>, c: char, from: int)
    requires
        0 <= from <= text.len(),
    ensures
        from <= find_from(text, c, from) <= text.len(),
        forall|k: int| from <= k < find_from(text, c, from) ==> text[k] != c,
        find_from(text, c, from) < text.len() ==> text[find_from(text, c, from)] == c,
    decreases text.len() - from,
{
    if from < text.len() && text[from] != c {
        lemma_find_from(text, c, from + 1);
    }
}

/// Finds the first place at or after `from` at which `c` stands; the
/// length of the text if there is none.
pub fn find_char(text: &str, c: char, from: usize) -> (place: usize)
    ensures
        place == find_from(text@, c, from as int),
        place <= text@.len(),
        from <= text@.len() ==> from <= place,
{
    let n: usize = text.unicode_len();
    if from >= n {
        return n;
    }
    let mut i: usize = from;
    while i < n && text.get_char(i) != c
        invariant
            n == text@.len(),
            from <= i <= n,
            find_from(text@, c, from as int) == find_from(text@, c, i as int),
        decreases n - i,
    {
        i = i + 1;
    }
    i
}

/// Takes the second of the pieces into which the separator `c` cuts a
/// text.
pub fn second_piece(text: &str, c: char) -> (piece: Option<&str>)
    ensures
        match piece {
            Some(p) => second_piece_text(text@, c) == Some(p@),
            None => second_piece_text(text@, c) is None,
        },
{
    let n: usize = text.unicode_len();
    let i: usize = find_char(text, c, 0);
    if i >= n {
        None
    } else {
        let j: usize = find_char(text, c, i + 1);
        Some(text.substring_char(i + 1, j))
    }
}

/// Decides whether a text starts with a prefix.
pub fn starts_with(text: &str, prefix: &str) -> (r: bool)
    ensures
        r == starts_with_text(text@, prefix@),
{
    strip_prefix(text, prefix).is_some()
}

} // verus!
