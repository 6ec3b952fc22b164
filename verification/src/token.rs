//! Tokens: the spelling in which the words of a document are compared.
use vstd::prelude::*;

use crate::text::{chars_of, same_text, trim, trim_text};

verus! {

/// How a token spells `c`: ASCII letters in lower case, and an underscore for each space,
/// hyphen and slash.
pub open spec fn token_char(c: char) -> char {
    if c == ' ' || c == '-' || c == '/' {
        '_'
    } else if 'A' <= c <= 'Z' {
        (c as int + 32) as char
    } else {
        c
    }
}

/// The token of `s`: its characters between the leading and the trailing whitespace, each
/// in the spelling of tokens.
pub open spec fn token(s: Seq<char>) -> Seq<char> {
    trim(s).map_values(|c: char| token_char(c))
}

/// The token of `value`.
pub fn normalize_token(value: &str) -> (r: String)
    ensures
        r@ == token(value@),
{
    let trimmed = trim_text(value);
    let chars = chars_of(trimmed.as_str());
    let mut r: String = String::new();
    let mut i: usize = 0;
    while i < chars.len()
        invariant
            i <= chars.len(),
            chars@ == trim(value@),
            r@ == token(value@).take(i as int),
        decreases chars.len() - i,
    {
        let c = chars[i];
        if c == ' ' || c == '-' || c == '/' {
            r.push('_');
        } else if 'A' <= c && c <= 'Z' {
            let lower: u8 = (c as u8) + 32;
            r.push(lower as char);
        } else {
            r.push(c);
        }
        assert(r@ =~= token(value@).take(i + 1));
        i = i + 1;
    }
    assert(token(value@).take(i as int) =~= token(value@));
    r
}

/// How much a change puts at stake.
#[derive(Debug, Clone, Copy, PartialEq, Eq, Structural)]
pub enum RiskLane {
    Tiny,
    Normal,
    HighRisk,
}

impl RiskLane {
    /// The spelling of the lane in the database.
    pub open spec fn name(self) -> Seq<char> {
        match self {
            RiskLane::Tiny => "tiny"@,
            RiskLane::Normal => "normal"@,
            RiskLane::HighRisk => "high_risk"@,
        }
    }

    /// The lane that `value` names.
    pub open spec fn named(value: Seq<char>) -> Option<RiskLane> {
        if token(value) == "tiny"@ {
            Some(RiskLane::Tiny)
        } else if token(value) == "normal"@ {
            Some(RiskLane::Normal)
        } else if token(value) == "high_risk"@ {
            Some(RiskLane::HighRisk)
        } else {
            None
        }
    }

    /// The spelling of the lane in the database.
    pub fn as_db_value(&self) -> (r: &'static str)
        ensures
            r@ == self.name(),
    {
        match self {
            RiskLane::Tiny => "tiny",
            RiskLane::Normal => "normal",
            RiskLane::HighRisk => "high_risk",
        }
    }

    /// The lane that `value` names, in any spelling with the same token.
    pub fn from_name(value: &str) -> (r: Option<RiskLane>)
        ensures
            r == RiskLane::named(value@),
    {
        let token = normalize_token(value);
        if same_text(token.as_str(), "tiny") {
            Some(RiskLane::Tiny)
        } else if same_text(token.as_str(), "normal") {
            Some(RiskLane::Normal)
        } else if same_text(token.as_str(), "high_risk") {
            Some(RiskLane::HighRisk)
        } else {
            None
        }
    }
}

} // verus!
