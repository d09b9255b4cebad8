//! The season codec: a strict parser and formatter for the 4-character
//! season token `e<episode>a<act>`, where `episode` is a single decimal
//! digit and `act` is 1, 2 or 3.

use vstd::prelude::*;
use vstd::string::StrSliceExecFns;
use vstd::string::StringExecFns;

verus! {

/// True iff `c` is a decimal digit (`'0'` through `'9'`).
pub open spec fn is_digit_char(c: char) -> bool {
    '0' <= c && c <= '9'
}

/// The numeric value of a decimal digit character.
pub open spec fn digit_value(c: char) -> int {
    c as int - '0' as int
}

/// The decimal digit character with value `d` (for `0 <= d <= 9`).
pub open spec fn digit_char(d: int) -> char {
    if d == 0 {
        '0'
    } else if d == 1 {
        '1'
    } else if d == 2 {
        '2'
    } else if d == 3 {
        '3'
    } else if d == 4 {
        '4'
    } else if d == 5 {
        '5'
    } else if d == 6 {
        '6'
    } else if d == 7 {
        '7'
    } else if d == 8 {
        '8'
    } else {
        '9'
    }
}

/// The canonical textual form of a season token: `e<episode>a<act>`.
pub open spec fn token_text(episode: int, act: int) -> Seq<char> {
    seq!['e', digit_char(episode), 'a', digit_char(act)]
}

/// True iff `s` is a well-formed season token text: exactly 4 characters,
/// the markers `'e'` and `'a'` at positions 0 and 2, decimal digits at
/// positions 1 and 3, and an act digit of 1, 2 or 3.
pub open spec fn valid_token_text(s: Seq<char>) -> bool {
    &&& s.len() == 4
    &&& s[0] == 'e'
    &&& s[2] == 'a'
    &&& is_digit_char(s[1])
    &&& is_digit_char(s[3])
    &&& 1 <= digit_value(s[3]) <= 3
}

/// Why a season token text was rejected. Each variant carries the
/// offending input for diagnostics.
#[derive(Debug)]
pub enum SeasonError {
    /// The input was not exactly 4 characters long.
    InvalidLength(String),
    /// The input was 4 characters long but broke a character-position
    /// rule or the act range.
    InvalidFormat(String),
}

impl SeasonError {
    /// The offending input text the error was raised for.
    pub fn raw(&self) -> (r: &str)
        ensures
            match self {
                SeasonError::InvalidLength(raw) => r@ == raw@,
                SeasonError::InvalidFormat(raw) => r@ == raw@,
            },
    {
        match self {
            SeasonError::InvalidLength(raw) => raw.as_str(),
            SeasonError::InvalidFormat(raw) => raw.as_str(),
        }
    }
}

/// A competitive season: an episode (one decimal digit) and an act
/// (1, 2 or 3). Values are only constructed by [`EpisodeAndAct::parse`],
/// so every value in circulation satisfies the range invariant.
#[derive(Debug, Clone, Copy, PartialEq, Eq, Structural)]
pub struct EpisodeAndAct {
    episode: u32,
    act: u32,
}

impl EpisodeAndAct {
    /// Range invariant: the episode is a single digit and the act is 1-3.
    #[verifier::type_invariant]
    pub closed spec fn wf(self) -> bool {
        self.episode <= 9 && 1 <= self.act <= 3
    }

    pub closed spec fn spec_episode(&self) -> u32 {
        self.episode
    }

    pub closed spec fn spec_act(&self) -> u32 {
        self.act
    }

    /// The episode digit.
    #[verifier::when_used_as_spec(spec_episode)]
    pub fn episode(&self) -> (r: u32)
        ensures
            r == self.spec_episode(),
    {
        self.episode
    }

    /// The act digit.
    #[verifier::when_used_as_spec(spec_act)]
    pub fn act(&self) -> (r: u32)
        ensures
            r == self.spec_act(),
    {
        self.act
    }

    /// Parse a season token text.
    ///
    /// Succeeds exactly on well-formed token texts. A text of the wrong
    /// length fails with `InvalidLength`; a 4-character text that breaks
    /// a position rule or the act range fails with `InvalidFormat`. Both
    /// errors carry the offending input.
    pub fn parse(s: &str) -> (r: Result<EpisodeAndAct, SeasonError>)
        ensures
            r is Ok <==> valid_token_text(s@),
            r matches Ok(t) ==> t.spec_episode() == digit_value(s@[1]) && t.spec_act()
                == digit_value(s@[3]),
            r matches Err(e) ==> match e {
                SeasonError::InvalidLength(raw) => s@.len() != 4 && raw@ == s@,
                SeasonError::InvalidFormat(raw) => s@.len() == 4 && !valid_token_text(s@) && raw@
                    == s@,
            },
    {
        if s.unicode_len() != 4 {
            return Err(SeasonError::InvalidLength(String::from_str(s)));
        }
        let c0 = s.get_char(0);
        let c2 = s.get_char(2);
        if c0 != 'e' || c2 != 'a' {
            return Err(SeasonError::InvalidFormat(String::from_str(s)));
        }
        let c1 = s.get_char(1);
        let c3 = s.get_char(3);
        if !is_digit(c1) || !is_digit(c3) {
            return Err(SeasonError::InvalidFormat(String::from_str(s)));
        }
        let episode = digit_of(c1);
        let act = digit_of(c3);
        if act == 0 || act >= 4 {
            return Err(SeasonError::InvalidFormat(String::from_str(s)));
        }
        Ok(EpisodeAndAct { episode, act })
    }

    /// Format the token back to its canonical text `e<episode>a<act>`.
    /// Never fails: the range invariant guarantees single digits.
    pub fn to_value(&self) -> (r: String)
        ensures
            r@ == token_text(self.spec_episode() as int, self.spec_act() as int),
            valid_token_text(r@),
    {
        proof {
            use_type_invariant(self);
            reveal_strlit("e");
            reveal_strlit("a");
        }
        let mut out = String::from_str("e");
        out.append(digit_str(self.episode));
        out.append("a");
        out.append(digit_str(self.act));
        proof {
            assert(out@ =~= token_text(self.spec_episode() as int, self.spec_act() as int));
        }
        out
    }
}

/// The range invariant, spelled out: a token satisfying it has a
/// single-digit episode and an act of 1-3.
pub proof fn lemma_token_in_range(t: EpisodeAndAct)
    requires
        t.wf(),
    ensures
        t.spec_episode() <= 9,
        1 <= t.spec_act() <= 3,
{
}

/// Law: formatting then parsing is the identity. For every token the
/// library can hold (and every episode 0-9 with act 1-3), the canonical
/// text is a valid token text and parses back to the same episode and
/// act, so `parse` applied to `to_value` returns the token unchanged.
pub proof fn lemma_parse_format_round_trip(episode: int, act: int)
    requires
        0 <= episode <= 9,
        1 <= act <= 3,
    ensures
        valid_token_text(token_text(episode, act)),
        digit_value(token_text(episode, act)[1]) == episode,
        digit_value(token_text(episode, act)[3]) == act,
{
}

/// Law: a 4-character text whose marker characters are wrong (position 0
/// is not `'e'` or position 2 is not `'a'`) is never a valid token text,
/// so `parse` rejects it with `InvalidFormat`.
pub proof fn lemma_wrong_marker_rejected(s: Seq<char>)
    requires
        s.len() == 4,
        s[0] != 'e' || s[2] != 'a',
    ensures
        !valid_token_text(s),
{
}

/// Law: a structurally well-formed text whose act digit is 0 or at least
/// 4 is never a valid token text, so `parse` rejects it with
/// `InvalidFormat`.
pub proof fn lemma_act_out_of_range_rejected(s: Seq<char>)
    requires
        s.len() == 4,
        is_digit_char(s[3]),
        digit_value(s[3]) == 0 || digit_value(s[3]) >= 4,
    ensures
        !valid_token_text(s),
{
}

/// Decide whether `c` is a decimal digit.
fn is_digit(c: char) -> (r: bool)
    ensures
        r == is_digit_char(c),
{
    c >= '0' && c <= '9'
}

/// The numeric value of a decimal digit character.
fn digit_of(c: char) -> (d: u32)
    requires
        is_digit_char(c),
    ensures
        d == digit_value(c),
        d <= 9,
{
    c as u32 - 48
}

/// The one-character text of a decimal digit.
fn digit_str(d: u32) -> (r: &'static str)
    requires
        d <= 9,
    ensures
        r@ =~= seq![digit_char(d as int)],
{
    proof {
        reveal_strlit("0");
        reveal_strlit("1");
        reveal_strlit("2");
        reveal_strlit("3");
        reveal_strlit("4");
        reveal_strlit("5");
        reveal_strlit("6");
        reveal_strlit("7");
        reveal_strlit("8");
        reveal_strlit("9");
    }
    match d {
        0 => "0",
        1 => "1",
        2 => "2",
        3 => "3",
        4 => "4",
        5 => "5",
        6 => "6",
        7 => "7",
        8 => "8",
        _ => "9",
    }
}

} // verus!
