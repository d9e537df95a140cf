//! Wire-level grammar of AT response and command lines.
//!
//! A response line is an optional `+TAG:` preamble followed by a
//! comma-separated, positionally indexed argument list. Arguments are either
//! decimal integers or quoted strings; leading spaces before an argument are
//! ignored and a comma inside a quoted string does not split. Command lines
//! are `AT`, the command tag, `=`, the decimal arguments, and a `\r\n`
//! terminator.

use vstd::prelude::*;

use crate::types::Error;

verus! {

/// The element views of a list of byte vectors.
pub open spec fn views(s: Seq<Vec<u8>>) -> Seq<Seq<u8>> {
    s.map_values(|t: Vec<u8>| t@)
}

// ---------------------------------------------------------------------------
// Splitting a line into arguments
// ---------------------------------------------------------------------------

/// Number of consecutive spaces at position `i`.
pub open spec fn space_len(s: Seq<u8>, i: int) -> nat
    decreases s.len() - i,
{
    if 0 <= i < s.len() && s[i] == 32u8 {
        (1 + space_len(s, i + 1)) as nat
    } else {
        0
    }
}

/// Length of the argument token starting at position `i`: everything up to
/// the next comma that does not lie inside a quoted string.
pub open spec fn tok_len(s: Seq<u8>, i: int, in_quote: bool) -> nat
    decreases s.len() - i,
{
    if !(0 <= i < s.len()) {
        0
    } else if !in_quote && s[i] == 44u8 {
        0
    } else if s[i] == 34u8 {
        (1 + tok_len(s, i + 1, !in_quote)) as nat
    } else {
        (1 + tok_len(s, i + 1, in_quote)) as nat
    }
}

/// The argument tokens of `s` from position `i` on, each with its leading
/// spaces removed. An empty remainder yields one empty token, so the token
/// list of a line always has one token more than the line has splitting
/// commas.
pub open spec fn split_from(s: Seq<u8>, i: int) -> Seq<Seq<u8>>
    recommends
        0 <= i <= s.len(),
    decreases s.len() - i,
{
    let a = i + space_len(s, i);
    let j = a + tok_len(s, a, false);
    if j >= s.len() {
        seq![s.subrange(a, s.len() as int)]
    } else {
        seq![s.subrange(a, j)] + split_from(s, j + 1)
    }
}

/// Whether `s` opens with the preamble `tag` followed by a colon.
pub open spec fn has_preamble(s: Seq<u8>, tag: Seq<u8>) -> bool {
    s.len() > tag.len() && s.subrange(0, tag.len() as int) == tag && s[tag.len() as int] == 58u8
}

/// The argument tokens of a response line: the tokens after the `+TAG:`
/// preamble when the line carries one, of the whole line otherwise.
pub open spec fn spec_args(s: Seq<u8>, tag: Seq<u8>) -> Seq<Seq<u8>> {
    if has_preamble(s, tag) {
        split_from(s, tag.len() + 1 as int)
    } else {
        split_from(s, 0)
    }
}

// ---------------------------------------------------------------------------
// Interpreting one token
// ---------------------------------------------------------------------------

/// Whether `c` is a decimal digit.
pub open spec fn is_digit(c: u8) -> bool {
    48 <= c <= 57
}

/// Whether `t` is a non-empty run of decimal digits.
pub open spec fn digit_string(t: Seq<u8>) -> bool {
    t.len() > 0 && forall|k: int| 0 <= k < t.len() ==> is_digit(t[k])
}

/// The value of a run of decimal digits.
pub open spec fn digits_val(t: Seq<u8>) -> nat
    recommends
        digit_string(t),
    decreases t.len(),
{
    if t.len() == 0 {
        0
    } else {
        (digits_val(t.drop_last()) * 10 + (t.last() - 48)) as nat
    }
}

/// What parsing a token as an unsigned integer yields.
pub open spec fn spec_parse_u64(t: Seq<u8>) -> Result<u64, Error> {
    if !digit_string(t) {
        Err(Error::InvalidResponse)
    } else if digits_val(t) > u64::MAX {
        Err(Error::Overflow)
    } else {
        Ok(digits_val(t) as u64)
    }
}

/// Whether `t` is exactly one quoted string: a quote, inner bytes free of
/// quotes, and a closing quote.
pub open spec fn quoted(t: Seq<u8>) -> bool {
    t.len() >= 2 && t[0] == 34u8 && t[t.len() - 1] == 34u8 && forall|k: int|
        1 <= k < t.len() - 1 ==> t[k] != 34u8
}

/// What reading argument `i` as an unsigned integer yields.
pub open spec fn spec_arg_u64(args: Seq<Seq<u8>>, i: int) -> Result<u64, Error> {
    if 0 <= i < args.len() {
        spec_parse_u64(args[i])
    } else {
        Err(Error::InvalidResponse)
    }
}

/// What reading argument `i` as a `u8` yields.
pub open spec fn spec_arg_u8(args: Seq<Seq<u8>>, i: int) -> Result<u8, Error> {
    match spec_arg_u64(args, i) {
        Ok(v) => if v <= u8::MAX { Ok(v as u8) } else { Err(Error::Overflow) },
        Err(e) => Err(e),
    }
}

/// What reading argument `i` as a `usize` yields.
pub open spec fn spec_arg_usize(args: Seq<Seq<u8>>, i: int) -> Result<usize, Error> {
    match spec_arg_u64(args, i) {
        Ok(v) => if v <= usize::MAX { Ok(v as usize) } else { Err(Error::Overflow) },
        Err(e) => Err(e),
    }
}

/// What reading argument `i` as a quoted string yields: the bytes between
/// the quotes, `ParseString` when the token does not open with a quote, and
/// `InvalidResponse` when it opens with a quote but is not well formed.
pub open spec fn spec_arg_str(args: Seq<Seq<u8>>, i: int) -> Result<Seq<u8>, Error> {
    if 0 <= i < args.len() {
        let t = args[i];
        if quoted(t) {
            Ok(t.subrange(1, t.len() - 1))
        } else if t.len() >= 1 && t[0] == 34u8 {
            Err(Error::InvalidResponse)
        } else {
            Err(Error::ParseString)
        }
    } else {
        Err(Error::InvalidResponse)
    }
}

// ---------------------------------------------------------------------------
// Serializing command arguments
// ---------------------------------------------------------------------------

/// The decimal digits of `n`.
pub open spec fn dec(n: u8) -> Seq<u8> {
    if n < 10 {
        seq![(48 + n) as u8]
    } else if n < 100 {
        seq![(48 + n / 10) as u8, (48 + n % 10) as u8]
    } else {
        seq![(48 + n / 100) as u8, (48 + (n / 10) % 10) as u8, (48 + n % 10) as u8]
    }
}

/// The tail of a command line: `=`, the decimal arguments in positional
/// order, and the `\r\n` terminator.
pub open spec fn args_tail(a0: u8, a1: Option<u8>) -> Seq<u8> {
    seq![61u8] + dec(a0) + (match a1 {
        Some(v) => seq![44u8] + dec(v),
        None => Seq::<u8>::empty(),
    }) + seq![13u8, 10u8]
}

// ---------------------------------------------------------------------------
// Executable splitting
// ---------------------------------------------------------------------------

/// Count the spaces at position `i`.
fn space_run(p: &Vec<u8>, i: usize) -> (r: usize)
    requires
        i <= p.len(),
    ensures
        r == space_len(p@, i as int),
        i + r <= p.len(),
    decreases p.len() - i,
{
    if i < p.len() && p[i] == 32u8 {
        1 + space_run(p, i + 1)
    } else {
        0
    }
}

/// Measure the argument token at position `i`.
fn token_run(p: &Vec<u8>, i: usize, in_quote: bool) -> (r: usize)
    requires
        i <= p.len(),
    ensures
        r == tok_len(p@, i as int, in_quote),
        i + r <= p.len(),
    decreases p.len() - i,
{
    if i >= p.len() {
        0
    } else if !in_quote && p[i] == 44u8 {
        0
    } else if p[i] == 34u8 {
        1 + token_run(p, i + 1, !in_quote)
    } else {
        1 + token_run(p, i + 1, in_quote)
    }
}

/// Copy `p[a..b]` into a fresh vector.
fn copy_range(p: &Vec<u8>, a: usize, b: usize) -> (r: Vec<u8>)
    requires
        a <= b <= p.len(),
    ensures
        r@ == p@.subrange(a as int, b as int),
{
    let mut r: Vec<u8> = Vec::new();
    let mut k: usize = a;
    while k < b
        invariant
            a <= k <= b <= p.len(),
            r@ == p@.subrange(a as int, k as int),
        decreases b - k,
    {
        r.push(p[k]);
        assert(p@.subrange(a as int, k as int).push(p@[k as int]) =~= p@.subrange(
            a as int,
            k + 1 as int,
        ));
        k += 1;
    }
    r
}

/// Append the tokens of `p` from position `i` on to `out`.
fn split_into(p: &Vec<u8>, i: usize, out: &mut Vec<Vec<u8>>)
    requires
        i <= p.len(),
    ensures
        views(final(out)@) == views(old(out)@) + split_from(p@, i as int),
    decreases p.len() - i,
{
    let a = i + space_run(p, i);
    let j = a + token_run(p, a, false);
    let tok = copy_range(p, a, j);
    let ghost mid = out@;
    out.push(tok);
    assert(views(out@) =~= views(mid) + seq![p@.subrange(a as int, j as int)]);
    if j < p.len() {
        split_into(p, j + 1, out);
        assert(views(out@) =~= views(mid) + split_from(p@, i as int));
    } else {
        assert(p@.subrange(a as int, j as int) =~= p@.subrange(a as int, p@.len() as int));
        assert(views(out@) =~= views(mid) + split_from(p@, i as int));
    }
}

/// Split the remainder of a line, from `start` on, into argument tokens.
pub fn split_args_from(p: &Vec<u8>, start: usize) -> (r: Vec<Vec<u8>>)
    requires
        start <= p.len(),
    ensures
        views(r@) == split_from(p@, start as int),
{
    let mut out: Vec<Vec<u8>> = Vec::new();
    split_into(p, start, &mut out);
    assert(views(out@) =~= split_from(p@, start as int));
    out
}

/// Does the line open with the preamble `tag` followed by a colon?
pub fn starts_with_preamble(p: &Vec<u8>, tag: &Vec<u8>) -> (r: bool)
    ensures
        r == has_preamble(p@, tag@),
{
    if p.len() <= tag.len() {
        return false;
    }
    let mut k: usize = 0;
    while k < tag.len()
        invariant
            k <= tag.len() < p.len(),
            forall|m: int| 0 <= m < k ==> p@[m] == tag@[m],
        decreases tag.len() - k,
    {
        if p[k] != tag[k] {
            assert(p@.subrange(0, tag@.len() as int) != tag@);
            return false;
        }
        k += 1;
    }
    assert(p@.subrange(0, tag@.len() as int) =~= tag@);
    p[tag.len()] == 58u8
}

/// Split a response line into its argument tokens, stripping the `+TAG:`
/// preamble when the line carries one.
pub fn split_args(p: &Vec<u8>, tag: &Vec<u8>) -> (r: Vec<Vec<u8>>)
    ensures
        views(r@) == spec_args(p@, tag@),
{
    if starts_with_preamble(p, tag) {
        split_args_from(p, tag.len() + 1)
    } else {
        split_args_from(p, 0)
    }
}

// ---------------------------------------------------------------------------
// Executable token readers
// ---------------------------------------------------------------------------

/// The value of any digit prefix never exceeds the value of the whole run.
proof fn lemma_digits_prefix(t: Seq<u8>, m: int)
    requires
        0 <= m <= t.len(),
        forall|k: int| 0 <= k < t.len() ==> is_digit(t[k]),
    ensures
        digits_val(t.take(m)) <= digits_val(t),
    decreases t.len(),
{
    if m == t.len() {
        assert(t.take(m) =~= t);
    } else {
        assert(t.drop_last() =~= t.take(t.len() - 1));
        assert(forall|k: int| 0 <= k < t.drop_last().len() ==> is_digit(t.drop_last()[k]));
        lemma_digits_prefix(t.drop_last(), m);
        assert(t.drop_last().take(m) =~= t.take(m));
        assert(digits_val(t.drop_last()) * 10 >= digits_val(t.drop_last())) by (nonlinear_arith);
        assert(is_digit(t.last()));
    }
}

/// Parse a token as a decimal unsigned integer.
pub fn parse_u64(t: &Vec<u8>) -> (r: Result<u64, Error>)
    ensures
        r == spec_parse_u64(t@),
{
    if t.len() == 0 {
        return Err(Error::InvalidResponse);
    }
    let mut k: usize = 0;
    while k < t.len()
        invariant
            k <= t.len(),
            forall|j: int| 0 <= j < k ==> is_digit(t@[j]),
        decreases t.len() - k,
    {
        let c = t[k];
        if !(48 <= c && c <= 57) {
            return Err(Error::InvalidResponse);
        }
        k += 1;
    }
    assert(digit_string(t@));
    let mut acc: u64 = 0;
    k = 0;
    while k < t.len()
        invariant
            k <= t.len(),
            digit_string(t@),
            acc == digits_val(t@.take(k as int)),
        decreases t.len() - k,
    {
        let d = (t[k] - 48) as u64;
        assert(t@.take(k + 1 as int).drop_last() =~= t@.take(k as int));
        assert(t@.take(k + 1 as int).last() == t@[k as int]);
        match acc.checked_mul(10) {
            None => {
                proof {
                    assert(digits_val(t@.take(k + 1 as int)) > u64::MAX);
                    lemma_digits_prefix(t@, k + 1 as int);
                }
                return Err(Error::Overflow);
            },
            Some(m) => {
                match m.checked_add(d) {
                    None => {
                        proof {
                            assert(digits_val(t@.take(k + 1 as int)) > u64::MAX);
                            lemma_digits_prefix(t@, k + 1 as int);
                        }
                        return Err(Error::Overflow);
                    },
                    Some(s) => {
                        acc = s;
                    },
                }
            },
        }
        k += 1;
    }
    assert(t@.take(t@.len() as int) =~= t@);
    Ok(acc)
}

/// Read argument `i` as an unsigned integer.
pub fn arg_u64(args: &Vec<Vec<u8>>, i: usize) -> (r: Result<u64, Error>)
    ensures
        r == spec_arg_u64(views(args@), i as int),
{
    if i < args.len() {
        parse_u64(&args[i])
    } else {
        Err(Error::InvalidResponse)
    }
}

/// Read argument `i` as a `u8`.
pub fn arg_u8(args: &Vec<Vec<u8>>, i: usize) -> (r: Result<u8, Error>)
    ensures
        r == spec_arg_u8(views(args@), i as int),
{
    match arg_u64(args, i) {
        Ok(v) => if v <= u8::MAX as u64 { Ok(v as u8) } else { Err(Error::Overflow) },
        Err(e) => Err(e),
    }
}

/// Read argument `i` as a `usize`.
pub fn arg_usize(args: &Vec<Vec<u8>>, i: usize) -> (r: Result<usize, Error>)
    ensures
        r == spec_arg_usize(views(args@), i as int),
{
    match arg_u64(args, i) {
        Ok(v) => if v <= usize::MAX as u64 { Ok(v as usize) } else { Err(Error::Overflow) },
        Err(e) => Err(e),
    }
}

/// Read argument `i` as a quoted string, yielding the bytes between the
/// quotes.
pub fn arg_str(args: &Vec<Vec<u8>>, i: usize) -> (r: Result<Vec<u8>, Error>)
    ensures
        match r {
            Ok(v) => spec_arg_str(views(args@), i as int) == Ok::<Seq<u8>, Error>(v@),
            Err(e) => spec_arg_str(views(args@), i as int) == Err::<Seq<u8>, Error>(e),
        },
{
    assert(views(args@).len() == args@.len());
    if i >= args.len() {
        return Err(Error::InvalidResponse);
    }
    let t = &args[i];
    assert(views(args@)[i as int] == args@[i as int]@);
    if t.len() < 1 || t[0] != 34u8 {
        return Err(Error::ParseString);
    }
    if t.len() < 2 || t[t.len() - 1] != 34u8 {
        return Err(Error::InvalidResponse);
    }
    let mut k: usize = 1;
    while k < t.len() - 1
        invariant
            1 <= k <= t.len() - 1,
            t.len() >= 2,
            i < args@.len(),
            views(args@).len() == args@.len(),
            t@ == views(args@)[i as int],
            t@[0] == 34u8,
            t@[t@.len() - 1] == 34u8,
            forall|m: int| 1 <= m < k ==> t@[m] != 34u8,
        decreases t.len() - k,
    {
        if t[k] == 34u8 {
            assert(!quoted(t@)) by {
                assert(t@[k as int] == 34u8);
            }
            return Err(Error::InvalidResponse);
        }
        k += 1;
    }
    assert(quoted(t@));
    Ok(copy_range(t, 1, t.len() - 1))
}

// ---------------------------------------------------------------------------
// Executable serialization
// ---------------------------------------------------------------------------

/// Append the decimal digits of `n`.
pub fn push_dec(v: &mut Vec<u8>, n: u8)
    ensures
        final(v)@ == old(v)@ + dec(n),
{
    let ghost base = v@;
    if n < 10 {
        v.push(48 + n);
    } else if n < 100 {
        v.push(48 + n / 10);
        v.push(48 + n % 10);
    } else {
        v.push(48 + n / 100);
        v.push(48 + (n / 10) % 10);
        v.push(48 + n % 10);
    }
    assert(v@ =~= base + dec(n));
}

/// Append `=`, the decimal arguments, and the `\r\n` terminator.
pub fn push_args(v: &mut Vec<u8>, a0: u8, a1: Option<u8>)
    ensures
        final(v)@ == old(v)@ + args_tail(a0, a1),
{
    let ghost base = v@;
    v.push(61u8);
    push_dec(v, a0);
    match a1 {
        Some(x) => {
            v.push(44u8);
            push_dec(v, x);
        },
        None => {},
    }
    v.push(13u8);
    v.push(10u8);
    assert(v@ =~= base + args_tail(a0, a1));
}

} // verus!
