//! The lexical pieces of the console grammar: whitespace-separated
//! tokens, integers as `str::parse` reads them, and namespaced ids.
use vstd::prelude::*;
use crate::text::{is_ws, is_whitespace, copy_range, lower_seq, lower_chars, minecraft_prefix,
    minecraft_prefix_chars};

verus! {

/// The characters of each token.
pub open spec fn token_views(v: Seq<Vec<char>>) -> Seq<Seq<char>> {
    v.map_values(|t: Vec<char>| t@)
}

/// How many characters `s` starts with before its first whitespace.
pub open spec fn token_len(s: Seq<char>) -> nat
    decreases s.len(),
{
    if s.len() == 0 || is_ws(s[0]) {
        0
    } else {
        1 + token_len(s.drop_first())
    }
}

/// The maximal runs of non-whitespace characters of `s`, in order
/// (`str::split_whitespace`).
pub open spec fn split_ws(s: Seq<char>) -> Seq<Seq<char>>
    decreases s.len(),
{
    if s.len() == 0 {
        Seq::empty()
    } else if is_ws(s[0]) {
        split_ws(s.drop_first())
    } else {
        let n = token_len(s);
        proof {
            lemma_token_len_bound(s);
        }
        seq![s.take(n as int)] + split_ws(s.skip(n as int))
    }
}

pub proof fn lemma_token_len_bound(s: Seq<char>)
    ensures
        token_len(s) <= s.len(),
        s.len() > 0 && !is_ws(s[0]) ==> token_len(s) > 0,
        forall|i: int| 0 <= i < token_len(s) ==> !is_ws(#[trigger] s[i]),
        token_len(s) < s.len() ==> is_ws(s[token_len(s) as int]),
    decreases s.len(),
{
    if s.len() > 0 && !is_ws(s[0]) {
        lemma_token_len_bound(s.drop_first());
        assert forall|i: int| 0 <= i < token_len(s) implies !is_ws(#[trigger] s[i]) by {
            if i > 0 {
                assert(s[i] == s.drop_first()[i - 1]);
            }
        }
    }
}

/// The token starting at `start` ends where a whitespace character (or the
/// end) comes.
proof fn lemma_token_len_at(s: Seq<char>, start: int, end: int)
    requires
        0 <= start <= end <= s.len(),
        forall|i: int| start <= i < end ==> !is_ws(#[trigger] s[i]),
        end == s.len() || is_ws(s[end]),
    ensures
        token_len(s.skip(start)) == end - start,
    decreases end - start,
{
    if start < end {
        assert(s.skip(start).drop_first() =~= s.skip(start + 1));
        lemma_token_len_at(s, start + 1, end);
    }
}

/// The whitespace-separated tokens of `s`.
pub fn split_whitespace(s: &[char]) -> (r: Vec<Vec<char>>)
    ensures
        token_views(r@) == split_ws(s@),
{
    let mut r: Vec<Vec<char>> = Vec::new();
    let mut i: usize = 0;
    proof {
        assert(s@.skip(0) =~= s@);
        assert(token_views(r@) =~= Seq::<Seq<char>>::empty());
    }
    while i < s.len()
        invariant
            i <= s@.len(),
            split_ws(s@) == token_views(r@) + split_ws(s@.skip(i as int)),
        decreases s@.len() - i,
    {
        if is_whitespace(s[i]) {
            proof {
                assert(s@.skip(i as int).drop_first() =~= s@.skip(i + 1));
            }
            i = i + 1;
        } else {
            let start = i;
            while i < s.len() && !is_whitespace(s[i])
                invariant
                    start <= i <= s@.len(),
                    forall|k: int| start <= k < i ==> !is_ws(#[trigger] s@[k]),
                decreases s@.len() - i,
            {
                i = i + 1;
            }
            let token = copy_range(s, start, i);
            proof {
                lemma_token_len_at(s@, start as int, i as int);
                let rest = s@.skip(start as int);
                assert(rest.take((i - start) as int) =~= token@);
                assert(rest.skip((i - start) as int) =~= s@.skip(i as int));
                let old_r = token_views(r@);
                assert(split_ws(rest) == seq![token@] + split_ws(s@.skip(i as int)));
                assert(token_views(r@.push(token)) =~= old_r.push(token@));
                assert(old_r + split_ws(rest) =~= old_r.push(token@) + split_ws(s@.skip(i as int)));
            }
            r.push(token);
        }
    }
    proof {
        assert(s@.skip(i as int) =~= Seq::<char>::empty());
        assert(token_views(r@) + Seq::<Seq<char>>::empty() =~= token_views(r@));
    }
    r
}

/// Whether `c` is an ASCII digit.
pub open spec fn is_digit(c: char) -> bool {
    '0' <= c && c <= '9'
}

/// The number the decimal digits of `d` spell.
pub open spec fn digits_value(d: Seq<char>) -> int
    decreases d.len(),
{
    if d.len() == 0 {
        0
    } else {
        digits_value(d.drop_last()) * 10 + (d.last() as int - '0' as int)
    }
}

/// Whether `d` is one or more decimal digits.
pub open spec fn all_digits(d: Seq<char>) -> bool {
    d.len() > 0 && forall|i: int| 0 <= i < d.len() ==> is_digit(#[trigger] d[i])
}

/// An unsigned integer as `str::parse` reads it: an optional `+`, then
/// digits, worth at most `max`.
pub open spec fn parse_unsigned(s: Seq<char>, max: int) -> Option<int> {
    let d = if s.len() > 0 && s[0] == '+' { s.drop_first() } else { s };
    if all_digits(d) && digits_value(d) <= max {
        Some(digits_value(d))
    } else {
        None
    }
}

/// An `i32` as `str::parse` reads it: an optional sign, then digits, in
/// range.
pub open spec fn parse_signed(s: Seq<char>) -> Option<int> {
    if s.len() > 0 && s[0] == '-' {
        let d = s.drop_first();
        if all_digits(d) && digits_value(d) <= 0x8000_0000 {
            Some(-digits_value(d))
        } else {
            None
        }
    } else {
        parse_unsigned(s, 0x7FFF_FFFF)
    }
}

proof fn lemma_digits_value_grows(d: Seq<char>, n: int)
    requires
        0 <= n <= d.len(),
        forall|i: int| 0 <= i < d.len() ==> is_digit(#[trigger] d[i]),
    ensures
        digits_value(d.take(n)) <= digits_value(d),
        0 <= digits_value(d.take(n)),
    decreases d.len() - n,
{
    if n < d.len() {
        assert(d.take(n + 1).drop_last() =~= d.take(n));
        assert(d.take(n + 1).last() == d[n]);
        lemma_digits_value_grows(d, n + 1);
    } else {
        assert(d.take(n) =~= d);
    }
    lemma_digits_nonneg(d.take(n));
}

/// A number read by [`parse_unsigned`] lies in `0..=max`.
pub proof fn lemma_parse_unsigned_range(s: Seq<char>, max: int)
    ensures
        parse_unsigned(s, max) matches Some(v) ==> 0 <= v <= max,
{
    let d = if s.len() > 0 && s[0] == '+' { s.drop_first() } else { s };
    if all_digits(d) {
        lemma_digits_nonneg(d);
    }
}

/// A number read by [`parse_signed`] fits an `i32`.
pub proof fn lemma_parse_signed_range(s: Seq<char>)
    ensures
        parse_signed(s) matches Some(v) ==> i32::MIN <= v <= i32::MAX,
{
    if s.len() > 0 && s[0] == '-' {
        if all_digits(s.drop_first()) {
            lemma_digits_nonneg(s.drop_first());
        }
    } else {
        lemma_parse_unsigned_range(s, 0x7FFF_FFFF);
    }
}

proof fn lemma_digits_nonneg(d: Seq<char>)
    requires
        forall|i: int| 0 <= i < d.len() ==> is_digit(#[trigger] d[i]),
    ensures
        0 <= digits_value(d),
    decreases d.len(),
{
    if d.len() > 0 {
        assert(is_digit(d[d.len() - 1]));
        lemma_digits_nonneg(d.drop_last());
    }
}

/// The value of the digits `s[from..]` when all are digits and the value
/// is at most `max`.
fn digits_from(s: &[char], from: usize, max: u64) -> (r: Option<u64>)
    requires
        from <= s@.len(),
        max >= 9,
    ensures
        ({
            let d = s@.skip(from as int);
            match r {
                Some(v) => all_digits(d) && v == digits_value(d) && v <= max,
                None => !(all_digits(d) && digits_value(d) <= max),
            }
        }),
{
    let ghost d = s@.skip(from as int);
    if from == s.len() {
        return None;
    }
    let mut value: u64 = 0;
    let mut i: usize = from;
    proof {
        assert(d.take(0) =~= Seq::<char>::empty());
    }
    while i < s.len()
        invariant
            from <= i <= s@.len(),
            d == s@.skip(from as int),
            forall|k: int| 0 <= k < i - from ==> is_digit(#[trigger] d[k]),
            value == digits_value(d.take(i - from)),
            value <= max,
            max >= 9,
        decreases s@.len() - i,
    {
        let c = s[i];
        if !('0' <= c && c <= '9') {
            proof {
                assert(d[i - from] == c);
            }
            return None;
        }
        let digit: u64 = (c as u32 - '0' as u32) as u64;
        proof {
            assert(d.take(i - from + 1).drop_last() =~= d.take(i - from));
            assert(d.take(i - from + 1).last() == c);
            assert(d[i - from] == c);
        }
        if value > (max - digit) / 10 {
            proof {
                assert(value * 10 + digit > max) by (nonlinear_arith)
                    requires
                        value > (max - digit) / 10,
                        digit <= 9,
                        max >= 0,
                ;
                if forall|k: int| 0 <= k < d.len() ==> is_digit(#[trigger] d[k]) {
                    lemma_digits_value_grows(d, i - from + 1);
                }
            }
            return None;
        }
        proof {
            assert(value * 10 + digit <= max) by (nonlinear_arith)
                requires
                    value <= (max - digit) / 10,
                    digit <= max,
            ;
        }
        value = value * 10 + digit;
        i = i + 1;
    }
    proof {
        assert(d.take(i - from) =~= d);
    }
    Some(value)
}

/// An unsigned token as `str::parse` reads it, if it is at most `max`.
fn parse_unsigned_token(s: &[char], max: u64) -> (r: Option<u64>)
    requires
        max >= 9,
    ensures
        match r {
            Some(v) => parse_unsigned(s@, max as int) == Some(v as int),
            None => parse_unsigned(s@, max as int) is None,
        },
{
    if s.len() > 0 && s[0] == '+' {
        proof {
            assert(s@.skip(1) =~= s@.drop_first());
        }
        digits_from(s, 1, max)
    } else {
        proof {
            assert(s@.skip(0) =~= s@);
        }
        digits_from(s, 0, max)
    }
}

/// A `u32` token (`str::parse::<u32>`).
pub fn parse_u32(s: &[char]) -> (r: Option<u32>)
    ensures
        match r {
            Some(v) => parse_unsigned(s@, u32::MAX as int) == Some(v as int),
            None => parse_unsigned(s@, u32::MAX as int) is None,
        },
{
    match parse_unsigned_token(s, u32::MAX as u64) {
        Some(v) => Some(v as u32),
        None => None,
    }
}

/// A `usize` token (`str::parse::<usize>`).
pub fn parse_usize(s: &[char]) -> (r: Option<usize>)
    ensures
        match r {
            Some(v) => parse_unsigned(s@, usize::MAX as int) == Some(v as int),
            None => parse_unsigned(s@, usize::MAX as int) is None,
        },
{
    match parse_unsigned_token(s, usize::MAX as u64) {
        Some(v) => Some(v as usize),
        None => None,
    }
}

/// An `i32` token (`str::parse::<i32>`).
pub fn parse_i32(s: &[char]) -> (r: Option<i32>)
    ensures
        match r {
            Some(v) => parse_signed(s@) == Some(v as int),
            None => parse_signed(s@) is None,
        },
{
    if s.len() > 0 && s[0] == '-' {
        proof {
            assert(s@.skip(1) =~= s@.drop_first());
        }
        match digits_from(s, 1, 0x8000_0000) {
            Some(v) => {
                let negated: i64 = 0i64 - (v as i64);
                Some(negated as i32)
            },
            None => None,
        }
    } else {
        match parse_unsigned_token(s, 0x7FFF_FFFF) {
            Some(v) => Some(v as i32),
            None => None,
        }
    }
}

/// How many `:` characters `s` holds.
pub open spec fn colon_count(s: Seq<char>) -> nat
    decreases s.len(),
{
    if s.len() == 0 {
        0
    } else {
        colon_count(s.drop_last()) + if s.last() == ':' { 1nat } else { 0nat }
    }
}

/// Whether `s` is a well-formed (possibly namespaced) identifier: not
/// empty, no whitespace, at most one `:`.
pub open spec fn well_formed_id(s: Seq<char>) -> bool {
    &&& s.len() > 0
    &&& forall|i: int| 0 <= i < s.len() ==> !is_ws(#[trigger] s[i])
    &&& colon_count(s) <= 1
}

/// A well-formed identifier in canonical form: lower-cased, in the
/// `minecraft` namespace unless it names one.
pub open spec fn namespaced(s: Seq<char>) -> Seq<char> {
    if s.contains(':') {
        lower_seq(s)
    } else {
        minecraft_prefix() + lower_seq(s)
    }
}

proof fn lemma_colon_count_contains(s: Seq<char>)
    ensures
        (colon_count(s) > 0) == s.contains(':'),
    decreases s.len(),
{
    if s.len() > 0 {
        let rest = s.drop_last();
        lemma_colon_count_contains(rest);
        if rest.contains(':') {
            let k = choose|k: int| 0 <= k < rest.len() && rest[k] == ':';
            assert(s[k] == ':');
        }
        if s.last() == ':' {
            assert(s[s.len() - 1] == ':');
        }
        if s.contains(':') {
            let k = choose|k: int| 0 <= k < s.len() && s[k] == ':';
            if k < s.len() - 1 {
                assert(rest[k] == ':');
            }
        }
    }
}

/// Checks and canonicalises an identifier: `None` unless
/// [`well_formed_id`].
pub fn canonical_id(s: &[char]) -> (r: Option<Vec<char>>)
    ensures
        match r {
            Some(v) => well_formed_id(s@) && v@ == namespaced(s@),
            None => !well_formed_id(s@),
        },
{
    if s.len() == 0 {
        return None;
    }
    let mut colons: usize = 0;
    let mut i: usize = 0;
    while i < s.len()
        invariant
            i <= s@.len(),
            colons == colon_count(s@.take(i as int)),
            colons <= i,
            forall|k: int| 0 <= k < i ==> !is_ws(#[trigger] s@[k]),
        decreases s@.len() - i,
    {
        proof {
            assert(s@.take(i + 1).drop_last() =~= s@.take(i as int));
            assert(s@.take(i + 1).last() == s@[i as int]);
        }
        if is_whitespace(s[i]) {
            return None;
        }
        if s[i] == ':' {
            colons = colons + 1;
        }
        i = i + 1;
    }
    proof {
        assert(s@.take(s@.len() as int) =~= s@);
        lemma_colon_count_contains(s@);
    }
    if colons > 1 {
        return None;
    }
    let lowered = lower_chars(s);
    if colons == 1 {
        Some(lowered)
    } else {
        let mut all = minecraft_prefix_chars();
        let ghost start = all@;
        let mut j: usize = 0;
        while j < lowered.len()
            invariant
                j <= lowered@.len(),
                all@ == start + lowered@.take(j as int),
            decreases lowered@.len() - j,
        {
            all.push(lowered[j]);
            proof {
                assert(lowered@.take(j + 1) =~= lowered@.take(j as int).push(lowered@[j as int]));
            }
            j = j + 1;
        }
        proof {
            assert(lowered@.take(lowered@.len() as int) =~= lowered@);
        }
        Some(all)
    }
}

/// How many characters `s` starts with before its first `,`.
pub open spec fn piece_len(s: Seq<char>) -> nat
    decreases s.len(),
{
    if s.len() == 0 || s[0] == ',' {
        0
    } else {
        1 + piece_len(s.drop_first())
    }
}

/// The pieces of `s` between commas, empty ones included (`str::split(',')`).
pub open spec fn split_commas(s: Seq<char>) -> Seq<Seq<char>>
    decreases s.len(),
{
    let n = piece_len(s);
    if n >= s.len() {
        seq![s]
    } else {
        seq![s.take(n as int)] + split_commas(s.skip(n as int + 1))
    }
}

proof fn lemma_piece_len_at(s: Seq<char>, start: int, end: int)
    requires
        0 <= start <= end <= s.len(),
        forall|i: int| start <= i < end ==> #[trigger] s[i] != ',',
        end == s.len() || s[end] == ',',
    ensures
        piece_len(s.skip(start)) == end - start,
    decreases end - start,
{
    if start < end {
        assert(s.skip(start).drop_first() =~= s.skip(start + 1));
        lemma_piece_len_at(s, start + 1, end);
    }
}

/// The comma-separated pieces of `s`.
pub fn comma_pieces(s: &[char]) -> (r: Vec<Vec<char>>)
    ensures
        token_views(r@) == split_commas(s@),
{
    let mut r: Vec<Vec<char>> = Vec::new();
    let mut start: usize = 0;
    proof {
        assert(s@.skip(0) =~= s@);
        assert(token_views(r@) =~= Seq::<Seq<char>>::empty());
    }
    loop
        invariant
            start <= s@.len(),
            split_commas(s@) == token_views(r@) + split_commas(s@.skip(start as int)),
        decreases s@.len() - start,
    {
        let mut i = start;
        while i < s.len() && s[i] != ','
            invariant
                start <= i <= s@.len(),
                forall|k: int| start <= k < i ==> #[trigger] s@[k] != ',',
            decreases s@.len() - i,
        {
            i = i + 1;
        }
        let piece = copy_range(s, start, i);
        proof {
            lemma_piece_len_at(s@, start as int, i as int);
            let rest = s@.skip(start as int);
            assert(rest.take((i - start) as int) =~= piece@);
            assert(token_views(r@.push(piece)) =~= token_views(r@).push(piece@));
            if i < s.len() {
                assert(rest.skip((i - start) + 1) =~= s@.skip(i + 1));
                assert(token_views(r@) + split_commas(rest) =~= token_views(r@).push(piece@) + split_commas(s@.skip(i + 1)));
            } else {
                assert(rest =~= piece@);
                assert(token_views(r@) + split_commas(rest) =~= token_views(r@).push(piece@));
            }
        }
        r.push(piece);
        if i == s.len() {
            return r;
        }
        start = i + 1;
    }
}

/// The part of `s` before its first whitespace character, and the part
/// after it (`str::split_once(char::is_whitespace)`, the whole of `s` and
/// nothing when it has none).
pub open spec fn split_first_ws(s: Seq<char>) -> (Seq<char>, Seq<char>) {
    let n = token_len(s);
    if n >= s.len() {
        (s, Seq::empty())
    } else {
        (s.take(n as int), s.skip(n as int + 1))
    }
}

/// Executable form of [`split_first_ws`].
pub fn split_at_first_ws(s: &[char]) -> (r: (Vec<char>, Vec<char>))
    ensures
        (r.0@, r.1@) == split_first_ws(s@),
{
    let mut i: usize = 0;
    while i < s.len() && !is_whitespace(s[i])
        invariant
            i <= s@.len(),
            forall|k: int| 0 <= k < i ==> !is_ws(#[trigger] s@[k]),
        decreases s@.len() - i,
    {
        i = i + 1;
    }
    proof {
        lemma_token_len_at(s@, 0, i as int);
        assert(s@.skip(0) =~= s@);
    }
    if i == s.len() {
        proof {
            assert(s@.subrange(0, s@.len() as int) =~= s@);
            assert(s@.subrange(s@.len() as int, s@.len() as int) =~= Seq::<char>::empty());
        }
        (copy_range(s, 0, i), copy_range(s, i, i))
    } else {
        proof {
            assert(s@.subrange(0, i as int) =~= s@.take(i as int));
            assert(s@.subrange(i + 1, s@.len() as int) =~= s@.skip(i + 1));
        }
        (copy_range(s, 0, i), copy_range(s, i + 1, s.len()))
    }
}

} // verus!
