use vstd::prelude::*;
use vstd::string::*;

verus! {

/// Which quantity the CFB/RSO evaluator emits for each record.
#[derive(Clone, Copy, Debug, PartialEq, Eq)]
pub enum Mode {
    /// Emit the critical surface rate of spread.
    Rso,
    /// Emit the crown fraction burned.
    Cfb,
}

/// Holds exactly when `s` spells the token `RSO` with each letter in either
/// case.
pub open spec fn selects_rso(s: Seq<char>) -> bool {
    &&& s.len() == 3
    &&& (s[0] == 'R' || s[0] == 'r')
    &&& (s[1] == 'S' || s[1] == 's')
    &&& (s[2] == 'O' || s[2] == 'o')
}

/// Translates the external mode-selector string into the internal tag, once:
/// a case-insensitive match of the token `RSO` selects the critical surface
/// rate of spread, and every other string, the empty and the malformed ones
/// included, silently falls through to crown fraction burned.
pub fn mode_from_option(option: &str) -> (m: Mode)
    ensures
        m == (if selects_rso(option@) {
            Mode::Rso
        } else {
            Mode::Cfb
        }),
{
    if option.unicode_len() != 3 {
        return Mode::Cfb;
    }
    let c0 = option.get_char(0);
    let c1 = option.get_char(1);
    let c2 = option.get_char(2);
    if (c0 == 'R' || c0 == 'r') && (c1 == 'S' || c1 == 's') && (c2 == 'O' || c2 == 'o') {
        Mode::Rso
    } else {
        Mode::Cfb
    }
}

} // verus!
