//! Character-level scanning: digit extraction, whitespace tokenization, and
//! the "keep digits, then parse" rule applied everywhere a count is read.

use vstd::prelude::*;

verus! {

/// Decode failures of the wire format.
#[derive(Clone, Copy, Debug, PartialEq, Eq, Structural)]
pub enum DecodeError {
    /// A record header held fewer numeric tokens than the format demands,
    /// or a dimension did not fit in 32 bits. Also produced for the empty
    /// header a closed stream yields, so callers use it as the end sentinel.
    MalformedHeader,
    /// A player line without the expected bracket or path boundaries.
    MalformedPlayerLine,
    /// A score line whose digit characters are absent or overflow 32 bits.
    MalformedScore,
    /// A grid whose decoded rows disagree with the declared width or height.
    DimensionMismatch,
}

pub open spec fn is_digit_char(c: char) -> bool {
    '0' <= c && c <= '9'
}

pub open spec fn digit_val(c: char) -> int {
    c as int - '0' as int
}

/// The subsequence of decimal digit characters of `s`, in order.
pub open spec fn digits_of(s: Seq<char>) -> Seq<char>
    decreases s.len(),
{
    if s.len() == 0 {
        Seq::empty()
    } else if is_digit_char(s.last()) {
        digits_of(s.drop_last()).push(s.last())
    } else {
        digits_of(s.drop_last())
    }
}

/// The value of a digit string read in base ten.
pub open spec fn num_of(ds: Seq<char>) -> int
    decreases ds.len(),
{
    if ds.len() == 0 {
        0
    } else {
        num_of(ds.drop_last()) * 10 + digit_val(ds.last())
    }
}

pub open spec fn is_space_char(c: char) -> bool {
    c == ' ' || c == '\t' || c == '\n' || c == '\r'
}

/// Whitespace tokenization of `s[i..]`, with `cur` the token being built and
/// `acc` the tokens already complete.
pub open spec fn tokens_from(s: Seq<char>, i: int, cur: Seq<char>, acc: Seq<Seq<char>>) -> Seq<
    Seq<char>,
>
    decreases s.len() - i,
{
    if i < 0 || i >= s.len() {
        if cur.len() > 0 {
            acc.push(cur)
        } else {
            acc
        }
    } else if is_space_char(s[i]) {
        if cur.len() > 0 {
            tokens_from(s, i + 1, Seq::empty(), acc.push(cur))
        } else {
            tokens_from(s, i + 1, cur, acc)
        }
    } else {
        tokens_from(s, i + 1, cur.push(s[i]), acc)
    }
}

/// The maximal whitespace-free tokens of `s`, in order.
pub open spec fn tokens_of(s: Seq<char>) -> Seq<Seq<char>> {
    tokens_from(s, 0, Seq::empty(), Seq::empty())
}

/// The "keep digit characters only, then parse" rule: the count a line
/// carries, or `None` when it has no digits or their value overflows.
pub open spec fn count_of(s: Seq<char>) -> Option<u32> {
    let ds = digits_of(s);
    if ds.len() > 0 && num_of(ds) <= u32::MAX {
        Some(num_of(ds) as u32)
    } else {
        None
    }
}

/// The (height, width) pair a record header declares: its second and third
/// whitespace tokens, each read by the digit-extraction rule.
pub open spec fn dims_of(s: Seq<char>) -> Option<(u32, u32)> {
    let toks = tokens_of(s);
    if toks.len() < 3 {
        None
    } else {
        match (count_of(toks[1]), count_of(toks[2])) {
            (Some(h), Some(w)) => Some((h, w)),
            _ => None,
        }
    }
}

/// A longer digit string never has a smaller value.
proof fn lemma_num_of_prefix_le(ds: Seq<char>, i: int)
    requires
        0 <= i <= ds.len(),
        forall|j: int| 0 <= j < ds.len() ==> is_digit_char(#[trigger] ds[j]),
    ensures
        num_of(ds.subrange(0, i)) <= num_of(ds),
        num_of(ds) >= 0,
    decreases ds.len() - i,
{
    if i < ds.len() {
        let pre = ds.subrange(0, i);
        let nxt = ds.subrange(0, i + 1);
        assert(nxt.drop_last() =~= pre);
        assert(num_of(nxt) == num_of(pre) * 10 + digit_val(ds[i]));
        lemma_num_of_prefix_le(ds, i + 1);
        if i == 0 {
            assert(num_of(pre) == 0);
        } else {
            lemma_num_of_nonneg(pre);
        }
    } else {
        assert(ds.subrange(0, i) =~= ds);
        lemma_num_of_nonneg(ds);
    }
}

proof fn lemma_num_of_nonneg(ds: Seq<char>)
    requires
        forall|j: int| 0 <= j < ds.len() ==> is_digit_char(#[trigger] ds[j]),
    ensures
        num_of(ds) >= 0,
    decreases ds.len(),
{
    if ds.len() > 0 {
        lemma_num_of_nonneg(ds.drop_last());
    }
}

proof fn lemma_digits_of_all_digits(s: Seq<char>)
    ensures
        forall|j: int|
            0 <= j < digits_of(s).len() ==> is_digit_char(#[trigger] digits_of(s)[j]),
    decreases s.len(),
{
    if s.len() > 0 {
        lemma_digits_of_all_digits(s.drop_last());
        let pre = digits_of(s.drop_last());
        if is_digit_char(s.last()) {
            assert(digits_of(s) == pre.push(s.last()));
            assert forall|j: int| 0 <= j < digits_of(s).len() implies is_digit_char(
                #[trigger] digits_of(s)[j],
            ) by {
                if j < pre.len() {
                    assert(digits_of(s)[j] == pre[j]);
                } else {
                    assert(digits_of(s)[j] == s.last());
                }
            }
        }
    }
}

/// The digit characters of `line`, in order.
pub fn extract_digits(line: &str) -> (ds: Vec<char>)
    ensures
        ds@ == digits_of(line@),
{
    let n: usize = line.unicode_len();
    let mut ds: Vec<char> = Vec::new();
    let mut i: usize = 0;
    while i < n
        invariant
            i <= n,
            n == line@.len(),
            ds@ == digits_of(line@.subrange(0, i as int)),
        decreases n - i,
    {
        let c = line.get_char(i);
        proof {
            assert(line@.subrange(0, i + 1).drop_last() =~= line@.subrange(0, i as int));
            assert(line@.subrange(0, i + 1).last() == line@[i as int]);
        }
        if '0' <= c && c <= '9' {
            ds.push(c);
        }
        i = i + 1;
    }
    proof {
        assert(line@.subrange(0, n as int) =~= line@);
    }
    ds
}

/// Base-ten value of a digit vector; `None` on empty input or 32-bit overflow.
fn parse_digits(ds: &Vec<char>) -> (r: Option<u32>)
    requires
        forall|j: int| 0 <= j < ds@.len() ==> is_digit_char(#[trigger] ds@[j]),
    ensures
        r matches Some(v) ==> ds@.len() > 0 && num_of(ds@) <= u32::MAX && v == num_of(ds@),
        r is None ==> ds@.len() == 0 || num_of(ds@) > u32::MAX,
{
    if ds.len() == 0 {
        return None;
    }
    let mut acc: u32 = 0;
    let mut i: usize = 0;
    while i < ds.len()
        invariant
            i <= ds@.len(),
            forall|j: int| 0 <= j < ds@.len() ==> is_digit_char(#[trigger] ds@[j]),
            acc == num_of(ds@.subrange(0, i as int)),
        decreases ds@.len() - i,
    {
        let c = ds[i];
        let d: u32 = (c as u32) - 48;
        proof {
            assert(ds@.subrange(0, i + 1).drop_last() =~= ds@.subrange(0, i as int));
            assert(ds@.subrange(0, i + 1).last() == ds@[i as int]);
        }
        if acc > (u32::MAX - d) / 10 {
            proof {
                lemma_num_of_prefix_le(ds@, i + 1);
                assert(num_of(ds@.subrange(0, i + 1)) == acc * 10 + d);
            }
            return None;
        }
        acc = acc * 10 + d;
        i = i + 1;
    }
    proof {
        assert(ds@.subrange(0, ds@.len() as int) =~= ds@);
    }
    Some(acc)
}

/// The count a line carries under the digit-extraction rule.
pub fn decode_count(line: &str) -> (r: Option<u32>)
    ensures
        r == count_of(line@),
{
    let ds = extract_digits(line);
    proof {
        lemma_digits_of_all_digits(line@);
    }
    parse_digits(&ds)
}

/// The view of each token vector, in order.
pub open spec fn token_views(toks: Seq<Vec<char>>) -> Seq<Seq<char>> {
    toks.map_values(|t: Vec<char>| t@)
}

/// The maximal whitespace-free tokens of `line`, in order.
pub fn split_tokens(line: &str) -> (toks: Vec<Vec<char>>)
    ensures
        token_views(toks@) == tokens_of(line@),
{
    let n: usize = line.unicode_len();
    let mut toks: Vec<Vec<char>> = Vec::new();
    let mut cur: Vec<char> = Vec::new();
    let mut i: usize = 0;
    proof {
        assert(token_views(toks@) =~= Seq::<Seq<char>>::empty());
    }
    while i < n
        invariant
            i <= n,
            n == line@.len(),
            tokens_of(line@) == tokens_from(line@, i as int, cur@, token_views(toks@)),
        decreases n - i,
    {
        let c = line.get_char(i);
        if c == ' ' || c == '\t' || c == '\n' || c == '\r' {
            if cur.len() > 0 {
                let ghost old_toks = token_views(toks@);
                let ghost old_cur = cur@;
                toks.push(cur);
                cur = Vec::new();
                proof {
                    assert(token_views(toks@) =~= old_toks.push(old_cur));
                }
            }
        } else {
            cur.push(c);
        }
        i = i + 1;
    }
    if cur.len() > 0 {
        let ghost old_toks = token_views(toks@);
        let ghost old_cur = cur@;
        toks.push(cur);
        proof {
            assert(token_views(toks@) =~= old_toks.push(old_cur));
        }
    }
    toks
}

fn parse_token_count(tok: &Vec<char>) -> (r: Option<u32>)
    ensures
        r == count_of(tok@),
{
    let mut ds: Vec<char> = Vec::new();
    let mut i: usize = 0;
    while i < tok.len()
        invariant
            i <= tok@.len(),
            ds@ == digits_of(tok@.subrange(0, i as int)),
        decreases tok@.len() - i,
    {
        let c = tok[i];
        proof {
            assert(tok@.subrange(0, i + 1).drop_last() =~= tok@.subrange(0, i as int));
            assert(tok@.subrange(0, i + 1).last() == tok@[i as int]);
        }
        if '0' <= c && c <= '9' {
            ds.push(c);
        }
        i = i + 1;
    }
    proof {
        assert(tok@.subrange(0, tok@.len() as int) =~= tok@);
        lemma_digits_of_all_digits(tok@);
    }
    parse_digits(&ds)
}

/// The (height, width) a record header declares, or `MalformedHeader` when
/// the header has too few tokens or a count that does not parse; the latter
/// is also what the empty line of a closed stream yields.
pub fn decode_dims(line: &str) -> (r: Result<(u32, u32), DecodeError>)
    ensures
        dims_of(line@) matches Some(d) ==> r == Ok::<(u32, u32), DecodeError>(d),
        dims_of(line@) is None ==> r == Err::<(u32, u32), DecodeError>(
            DecodeError::MalformedHeader,
        ),
{
    let toks = split_tokens(line);
    if toks.len() < 3 {
        return Err(DecodeError::MalformedHeader);
    }
    proof {
        assert(token_views(toks@)[1] == toks@[1]@);
        assert(token_views(toks@)[2] == toks@[2]@);
    }
    let h = parse_token_count(&toks[1]);
    let w = parse_token_count(&toks[2]);
    match (h, w) {
        (Some(h), Some(w)) => Ok((h, w)),
        _ => Err(DecodeError::MalformedHeader),
    }
}

/// Digit extraction is what a count depends on, alone: two lines whose
/// embedded digit sequences agree decode to the same count, whatever
/// decoration surrounds them.
pub proof fn lemma_count_of_digits(s1: Seq<char>, s2: Seq<char>)
    requires
        digits_of(s1) == digits_of(s2),
    ensures
        count_of(s1) == count_of(s2),
{
}

/// Final score carried by a banner line; every non-digit is decoration.
pub fn get_score(line: &str) -> (r: Result<u32, DecodeError>)
    ensures
        count_of(line@) matches Some(v) ==> r == Ok::<u32, DecodeError>(v),
        count_of(line@) is None ==> r == Err::<u32, DecodeError>(DecodeError::MalformedScore),
{
    match decode_count(line) {
        Some(v) => Ok(v),
        None => Err(DecodeError::MalformedScore),
    }
}

} // verus!
