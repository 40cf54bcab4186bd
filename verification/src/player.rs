//! Player identities: the two description lines read at startup carry a
//! symbol marker at a fixed offset and a path-like or bracketed token whose
//! terminal segment is the display name.

use vstd::prelude::*;
use crate::scan::DecodeError;

verus! {

/// Which of the two symbols a player draws with.
#[derive(Clone, Copy, Debug, PartialEq, Eq, Structural)]
pub enum PlayerSymbol {
    First,
    Second,
}

/// Least index of `c` in `s[i..]`, if any.
pub open spec fn find_from(s: Seq<char>, c: char, i: int) -> Option<int>
    decreases s.len() - i,
{
    if i < 0 || i >= s.len() {
        None
    } else if s[i] == c {
        Some(i)
    } else {
        find_from(s, c, i + 1)
    }
}

/// Least index of `c` in `s`, if any.
pub open spec fn find_char(s: Seq<char>, c: char) -> Option<int> {
    find_from(s, c, 0)
}

/// Greatest index of `c` in `s[..=i]`, if any.
pub open spec fn rfind_from(s: Seq<char>, c: char, i: int) -> Option<int>
    decreases i + 1,
{
    if i < 0 || i >= s.len() {
        None
    } else if s[i] == c {
        Some(i)
    } else {
        rfind_from(s, c, i - 1)
    }
}

/// Greatest index of `c` in `s`, if any.
pub open spec fn rfind_char(s: Seq<char>, c: char) -> Option<int> {
    rfind_from(s, c, s.len() - 1)
}

/// Whether the known suffix token `.filler` starts at index `i` of `s`.
pub open spec fn filler_at(s: Seq<char>, i: int) -> bool {
    &&& 0 <= i
    &&& i + 7 <= s.len()
    &&& s[i] == '.'
    &&& s[i + 1] == 'f'
    &&& s[i + 2] == 'i'
    &&& s[i + 3] == 'l'
    &&& s[i + 4] == 'l'
    &&& s[i + 5] == 'e'
    &&& s[i + 6] == 'r'
}

/// Greatest start of `.filler` in `s[..i+7]`, if any.
pub open spec fn rfind_filler_from(s: Seq<char>, i: int) -> Option<int>
    decreases i + 1,
{
    if i < 0 {
        None
    } else if filler_at(s, i) {
        Some(i)
    } else {
        rfind_filler_from(s, i - 1)
    }
}

/// Greatest start of the `.filler` suffix token in `s`, if any.
pub open spec fn rfind_filler(s: Seq<char>) -> Option<int> {
    rfind_filler_from(s, s.len() - 7)
}

/// The symbol marker: character 10 of the line selects the second player's
/// symbol when it is `1`; anything else, or a shorter line, the first's.
pub open spec fn symbol_of_line(s: Seq<char>) -> PlayerSymbol {
    if s.len() > 10 && s[10] == '1' {
        PlayerSymbol::Second
    } else {
        PlayerSymbol::First
    }
}

/// The half-open character range of the display name inside a player line:
/// it ends at the last `.filler` token (or, failing that, the last `]`) and
/// starts after the last `/` (or, failing that, after the first `[`, which
/// the line must contain either way). `None` when a boundary is missing or
/// the range is inverted, which makes the line malformed.
pub open spec fn name_range_of(s: Seq<char>) -> Option<(int, int)> {
    let end = match rfind_filler(s) {
        Some(e) => Some(e),
        None => rfind_char(s, ']'),
    };
    match (end, find_char(s, '[')) {
        (Some(e), Some(b)) => {
            let start = match rfind_char(s, '/') {
                Some(i) => i + 1,
                None => b + 1,
            };
            if start <= e {
                Some((start, e))
            } else {
                None
            }
        },
        _ => None,
    }
}

/// What a player line decodes to: the name characters and the symbol.
pub open spec fn player_of_line(s: Seq<char>) -> Option<(Seq<char>, PlayerSymbol)> {
    match name_range_of(s) {
        Some((a, b)) => Some((s.subrange(a, b), symbol_of_line(s))),
        None => None,
    }
}

/// A player identity, extracted once at startup and immutable thereafter.
#[derive(Debug)]
pub struct Player {
    pub name: String,
    pub sym: PlayerSymbol,
}

fn find_char_exec(s: &str, c: char) -> (r: Option<usize>)
    ensures
        match r {
            Some(i) => find_char(s@, c) == Some(i as int) && i < s@.len(),
            None => find_char(s@, c) is None,
        },
{
    let n: usize = s.unicode_len();
    let mut i: usize = 0;
    while i < n
        invariant
            i <= n,
            n == s@.len(),
            find_char(s@, c) == find_from(s@, c, i as int),
        decreases n - i,
    {
        if s.get_char(i) == c {
            return Some(i);
        }
        i = i + 1;
    }
    None
}

fn rfind_char_exec(s: &str, c: char) -> (r: Option<usize>)
    ensures
        match r {
            Some(i) => rfind_char(s@, c) == Some(i as int) && i < s@.len(),
            None => rfind_char(s@, c) is None,
        },
{
    let n: usize = s.unicode_len();
    let mut i: usize = n;
    while i > 0
        invariant
            i <= n,
            n == s@.len(),
            rfind_char(s@, c) == rfind_from(s@, c, i - 1),
        decreases i,
    {
        i = i - 1;
        if s.get_char(i) == c {
            return Some(i);
        }
    }
    None
}

fn filler_at_exec(s: &str, i: usize) -> (b: bool)
    requires
        i + 7 <= s@.len(),
        s@.len() <= usize::MAX,
    ensures
        b == filler_at(s@, i as int),
{
    s.get_char(i) == '.' && s.get_char(i + 1) == 'f' && s.get_char(i + 2) == 'i' && s.get_char(
        i + 3,
    ) == 'l' && s.get_char(i + 4) == 'l' && s.get_char(i + 5) == 'e' && s.get_char(i + 6) == 'r'
}

fn rfind_filler_exec(s: &str) -> (r: Option<usize>)
    ensures
        match r {
            Some(i) => rfind_filler(s@) == Some(i as int) && i + 7 <= s@.len(),
            None => rfind_filler(s@) is None,
        },
{
    let n: usize = s.unicode_len();
    if n < 7 {
        return None;
    }
    let mut i: usize = n - 6;
    while i > 0
        invariant
            i <= n - 6,
            n == s@.len(),
            7 <= n,
            rfind_filler(s@) == rfind_filler_from(s@, i - 1),
        decreases i,
    {
        i = i - 1;
        if filler_at_exec(s, i) {
            return Some(i);
        }
    }
    None
}

impl Player {
    /// Decode one player-description line, or report it malformed exactly
    /// when `player_of_line` has nothing for it.
    pub fn from_line(line: &str) -> (r: Result<Player, DecodeError>)
        ensures
            player_of_line(line@) matches Some(p) ==> (r matches Ok(pl) && pl.name@ == p.0
                && pl.sym == p.1),
            player_of_line(line@) is None ==> r == Err::<Player, DecodeError>(
                DecodeError::MalformedPlayerLine,
            ),
    {
        let n: usize = line.unicode_len();
        let end = match rfind_filler_exec(line) {
            Some(e) => Some(e),
            None => rfind_char_exec(line, ']'),
        };
        let beg = find_char_exec(line, '[');
        match (end, beg) {
            (Some(e), Some(b)) => {
                let start = match rfind_char_exec(line, '/') {
                    Some(i) => i + 1,
                    None => b + 1,
                };
                if start <= e {
                    let name = line.substring_char(start, e).to_owned();
                    let sym = if n > 10 && line.get_char(10) == '1' {
                        PlayerSymbol::Second
                    } else {
                        PlayerSymbol::First
                    };
                    Ok(Player { name, sym })
                } else {
                    Err(DecodeError::MalformedPlayerLine)
                }
            },
            _ => Err(DecodeError::MalformedPlayerLine),
        }
    }

    /// The display name.
    pub fn name(&self) -> (r: &str)
        ensures
            r@ == self.name@,
    {
        self.name.as_str()
    }
}

/// Decode the two player identities from the startup block of the stream:
/// six banner lines, one ignored line, the first player line, one ignored
/// line, the second player line. Any shortfall or malformed player line is
/// fatal, as the session cannot proceed without identities.
pub fn get_players(lines: &Vec<String>) -> (r: Result<Vec<Player>, DecodeError>)
    ensures
        r is Ok <==> lines@.len() >= 10 && player_of_line(lines@[7]@) is Some && player_of_line(
            lines@[9]@,
        ) is Some,
        r matches Ok(ps) ==> ps@.len() == 2 && player_of_line(lines@[7]@) == Some(
            (ps@[0].name@, ps@[0].sym),
        ) && player_of_line(lines@[9]@) == Some((ps@[1].name@, ps@[1].sym)),
        r is Err ==> r == Err::<Vec<Player>, DecodeError>(DecodeError::MalformedPlayerLine),
{
    if lines.len() < 10 {
        return Err(DecodeError::MalformedPlayerLine);
    }
    let p1 = Player::from_line(lines[7].as_str())?;
    let p2 = Player::from_line(lines[9].as_str())?;
    let mut players: Vec<Player> = Vec::new();
    players.push(p1);
    players.push(p2);
    Ok(players)
}

} // verus!
