//! The caller's negotiated capability profile and the parser that derives it
//! from raw negotiation input.

use vstd::prelude::*;

verus! {

/// Per-request record of which recognized capabilities the caller asserted.
/// Built once per request by [`parse`]; immutable thereafter.
#[derive(Clone, Copy, PartialEq, Eq, Structural, Debug)]
pub struct CapabilityProfile {
    pub machine_rpz: bool,
    pub human_rpz: bool,
}

/// Mutually exclusive collapse of a profile's flags. The collapse is
/// first-match-wins in a fixed, documented order: an asserted machine flag
/// wins over an asserted human flag; only the absence of every recognized
/// flag yields `Absent`. This order is part of the field's public contract.
#[derive(Clone, Copy, PartialEq, Eq, Structural, Debug)]
pub enum Status {
    Machine,
    Human,
    Absent,
}

impl CapabilityProfile {
    /// The status collapse, as a mathematical function of the flags.
    pub open spec fn spec_status(self) -> Status {
        if self.machine_rpz {
            Status::Machine
        } else if self.human_rpz {
            Status::Human
        } else {
            Status::Absent
        }
    }

    /// No recognized capability is asserted.
    pub open spec fn all_false(self) -> bool {
        !self.machine_rpz && !self.human_rpz
    }

    /// First-match-wins precedence collapse over the recognized flags.
    pub fn status(&self) -> (s: Status)
        ensures
            s == self.spec_status(),
    {
        if self.machine_rpz {
            Status::Machine
        } else if self.human_rpz {
            Status::Human
        } else {
            Status::Absent
        }
    }
}

/// The status of an optional profile: a missing profile carries no capability
/// information, so it collapses to `Absent` (predicates fail closed).
pub open spec fn spec_status_opt(p: Option<CapabilityProfile>) -> Status {
    match p {
        Some(q) => q.spec_status(),
        None => Status::Absent,
    }
}

/// The capability token that asserts the machine-facing representation.
pub open spec fn machine_token() -> Seq<char> {
    "application/vnd.example.machine"@
}

/// The capability token that asserts the human-facing representation.
pub open spec fn human_token() -> Seq<char> {
    "application/vnd.example.human"@
}

/// Recognized token table, machine entry.
pub fn machine_preview() -> (s: &'static str)
    ensures
        s@ == machine_token(),
{
    "application/vnd.example.machine"
}

/// Recognized token table, human entry.
pub fn human_preview() -> (s: &'static str)
    ensures
        s@ == human_token(),
{
    "application/vnd.example.human"
}

/// `tok` occurs in `raw` as one whole comma-delimited token starting at `i`:
/// the characters match, and the occurrence is bounded on each side by the
/// start of the input, the end of the input, or a comma.
pub open spec fn is_token_at(raw: Seq<char>, tok: Seq<char>, i: int) -> bool {
    &&& 0 <= i
    &&& i + tok.len() <= raw.len()
    &&& (forall|k: int| 0 <= k < tok.len() ==> raw[i + k] == tok[k])
    &&& (i == 0 || raw[i - 1] == ',')
    &&& (i + tok.len() == raw.len() || raw[i + tok.len()] == ',')
}

/// Some whole comma-delimited token of `raw` equals `tok`.
pub open spec fn contains_token(raw: Seq<char>, tok: Seq<char>) -> bool {
    exists|i: int| is_token_at(raw, tok, i)
}

/// What parsing returns: one flag per recognized token, true exactly when
/// that token occurs whole in the comma-delimited input. Unrecognized tokens
/// contribute nothing.
pub open spec fn spec_parse(raw: Seq<char>) -> CapabilityProfile {
    CapabilityProfile {
        machine_rpz: contains_token(raw, machine_token()),
        human_rpz: contains_token(raw, human_token()),
    }
}

/// Absent input parses like empty input: every flag false.
pub open spec fn spec_parse_opt(raw: Option<Seq<char>>) -> CapabilityProfile {
    match raw {
        Some(s) => spec_parse(s),
        None => CapabilityProfile { machine_rpz: false, human_rpz: false },
    }
}

fn token_at(raw: &str, raw_len: usize, tok: &str, tok_len: usize, i: usize) -> (b: bool)
    requires
        raw_len == raw@.len(),
        tok_len == tok@.len(),
        i <= raw_len,
    ensures
        b == is_token_at(raw@, tok@, i as int),
{
    if tok_len > raw_len - i {
        return false;
    }
    if !(i == 0 || raw.get_char(i - 1) == ',') {
        return false;
    }
    if !(i + tok_len == raw_len || raw.get_char(i + tok_len) == ',') {
        return false;
    }
    let mut k: usize = 0;
    while k < tok_len
        invariant
            raw_len == raw@.len(),
            tok_len == tok@.len(),
            i + tok_len <= raw_len,
            k <= tok_len,
            forall|k2: int| 0 <= k2 < k ==> raw@[i + k2] == tok@[k2],
        decreases tok_len - k,
    {
        if raw.get_char(i + k) != tok.get_char(k) {
            assert(raw@[i as int + k as int] != tok@[k as int]);
            return false;
        }
        k += 1;
    }
    true
}

fn contains_token_str(raw: &str, tok: &str) -> (b: bool)
    ensures
        b == contains_token(raw@, tok@),
{
    let raw_len = raw.unicode_len();
    let tok_len = tok.unicode_len();
    let mut i: usize = 0;
    loop
        invariant
            raw_len == raw@.len(),
            tok_len == tok@.len(),
            i <= raw_len,
            forall|j: int| 0 <= j < i ==> !is_token_at(raw@, tok@, j),
        ensures
            forall|j: int| !is_token_at(raw@, tok@, j),
        decreases raw_len - i,
    {
        if token_at(raw, raw_len, tok, tok_len, i) {
            return true;
        }
        if i == raw_len {
            assert forall|j: int| !is_token_at(raw@, tok@, j) by {
                if is_token_at(raw@, tok@, j) {
                    assert(0 <= j <= raw_len);
                }
            }
            break;
        }
        i += 1;
    }
    false
}

/// Derive the caller's capability profile from raw negotiation input.
///
/// The input is split on commas; each whole token is matched case-sensitively
/// against the fixed table of recognized tokens. Unrecognized tokens are
/// silently ignored. The function is total: it accepts any input and never
/// fails; empty input yields the all-false profile.
pub fn parse(raw: &str) -> (p: CapabilityProfile)
    ensures
        p == spec_parse(raw@),
{
    let machine = contains_token_str(raw, machine_preview());
    let human = contains_token_str(raw, human_preview());
    CapabilityProfile { machine_rpz: machine, human_rpz: human }
}

/// [`parse`] for possibly absent input: absence is treated as empty input and
/// yields the all-false profile.
pub fn parse_opt(raw: Option<&str>) -> (p: CapabilityProfile)
    ensures
        p == spec_parse_opt(match raw {
            Some(s) => Some(s@),
            None => None,
        }),
{
    match raw {
        Some(s) => parse(s),
        None => CapabilityProfile { machine_rpz: false, human_rpz: false },
    }
}

} // verus!
