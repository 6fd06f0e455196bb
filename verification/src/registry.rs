//! The country registry: the ISO 13616 participating countries and the total
//! IBAN length registered for each.
//!
//! The registry is immutable data. A country is named by its ISO 3166-1
//! alpha-2 code, compared case-sensitively in upper case; lookup of a code
//! that is not registered is a normal outcome, reported as `None`.

use vstd::prelude::*;

verus! {

/// The registered total IBAN length for the country code written `c0 c1`,
/// or `None` if no participating country carries that code.
pub open spec fn country_length(c0: char, c1: char) -> Option<usize> {
    match (c0, c1) {
        ('A', 'D') => Some(24usize),
        ('A', 'E') => Some(23usize),
        ('A', 'L') => Some(28usize),
        ('A', 'T') => Some(20usize),
        ('A', 'Z') => Some(28usize),
        ('B', 'A') => Some(20usize),
        ('B', 'E') => Some(16usize),
        ('B', 'G') => Some(22usize),
        ('B', 'H') => Some(22usize),
        ('B', 'I') => Some(27usize),
        ('B', 'R') => Some(29usize),
        ('B', 'Y') => Some(28usize),
        ('C', 'H') => Some(21usize),
        ('C', 'R') => Some(22usize),
        ('C', 'Y') => Some(28usize),
        ('C', 'Z') => Some(24usize),
        ('D', 'E') => Some(22usize),
        ('D', 'J') => Some(27usize),
        ('D', 'K') => Some(18usize),
        ('D', 'O') => Some(28usize),
        ('E', 'E') => Some(20usize),
        ('E', 'G') => Some(29usize),
        ('E', 'S') => Some(24usize),
        ('F', 'I') => Some(18usize),
        ('F', 'K') => Some(18usize),
        ('F', 'O') => Some(18usize),
        ('F', 'R') => Some(27usize),
        ('G', 'B') => Some(22usize),
        ('G', 'E') => Some(22usize),
        ('G', 'I') => Some(23usize),
        ('G', 'L') => Some(18usize),
        ('G', 'R') => Some(27usize),
        ('G', 'T') => Some(28usize),
        ('H', 'R') => Some(21usize),
        ('H', 'U') => Some(28usize),
        ('I', 'E') => Some(22usize),
        ('I', 'L') => Some(23usize),
        ('I', 'Q') => Some(23usize),
        ('I', 'S') => Some(26usize),
        ('I', 'T') => Some(27usize),
        ('J', 'O') => Some(30usize),
        ('K', 'W') => Some(30usize),
        ('K', 'Z') => Some(20usize),
        ('L', 'B') => Some(28usize),
        ('L', 'C') => Some(32usize),
        ('L', 'I') => Some(21usize),
        ('L', 'T') => Some(20usize),
        ('L', 'U') => Some(20usize),
        ('L', 'V') => Some(21usize),
        ('L', 'Y') => Some(25usize),
        ('M', 'C') => Some(27usize),
        ('M', 'D') => Some(24usize),
        ('M', 'E') => Some(22usize),
        ('M', 'K') => Some(19usize),
        ('M', 'N') => Some(20usize),
        ('M', 'R') => Some(27usize),
        ('M', 'T') => Some(31usize),
        ('M', 'U') => Some(30usize),
        ('N', 'I') => Some(28usize),
        ('N', 'L') => Some(18usize),
        ('N', 'O') => Some(15usize),
        ('O', 'M') => Some(23usize),
        ('P', 'K') => Some(24usize),
        ('P', 'L') => Some(28usize),
        ('P', 'S') => Some(29usize),
        ('P', 'T') => Some(25usize),
        ('Q', 'A') => Some(29usize),
        ('R', 'O') => Some(24usize),
        ('R', 'S') => Some(22usize),
        ('R', 'U') => Some(33usize),
        ('S', 'A') => Some(24usize),
        ('S', 'C') => Some(31usize),
        ('S', 'D') => Some(18usize),
        ('S', 'E') => Some(24usize),
        ('S', 'I') => Some(19usize),
        ('S', 'K') => Some(24usize),
        ('S', 'M') => Some(27usize),
        ('S', 'O') => Some(23usize),
        ('S', 'T') => Some(25usize),
        ('S', 'V') => Some(28usize),
        ('T', 'L') => Some(23usize),
        ('T', 'N') => Some(24usize),
        ('T', 'R') => Some(26usize),
        ('U', 'A') => Some(29usize),
        ('V', 'A') => Some(22usize),
        ('V', 'G') => Some(24usize),
        ('X', 'K') => Some(20usize),
        _ => None,
    }
}

/// Looks up the two characters of a country code in the registry.
pub fn lookup_chars(c0: char, c1: char) -> (r: Option<usize>)
    ensures
        r == country_length(c0, c1),
{
    match (c0, c1) {
        ('A', 'D') => Some(24),
        ('A', 'E') => Some(23),
        ('A', 'L') => Some(28),
        ('A', 'T') => Some(20),
        ('A', 'Z') => Some(28),
        ('B', 'A') => Some(20),
        ('B', 'E') => Some(16),
        ('B', 'G') => Some(22),
        ('B', 'H') => Some(22),
        ('B', 'I') => Some(27),
        ('B', 'R') => Some(29),
        ('B', 'Y') => Some(28),
        ('C', 'H') => Some(21),
        ('C', 'R') => Some(22),
        ('C', 'Y') => Some(28),
        ('C', 'Z') => Some(24),
        ('D', 'E') => Some(22),
        ('D', 'J') => Some(27),
        ('D', 'K') => Some(18),
        ('D', 'O') => Some(28),
        ('E', 'E') => Some(20),
        ('E', 'G') => Some(29),
        ('E', 'S') => Some(24),
        ('F', 'I') => Some(18),
        ('F', 'K') => Some(18),
        ('F', 'O') => Some(18),
        ('F', 'R') => Some(27),
        ('G', 'B') => Some(22),
        ('G', 'E') => Some(22),
        ('G', 'I') => Some(23),
        ('G', 'L') => Some(18),
        ('G', 'R') => Some(27),
        ('G', 'T') => Some(28),
        ('H', 'R') => Some(21),
        ('H', 'U') => Some(28),
        ('I', 'E') => Some(22),
        ('I', 'L') => Some(23),
        ('I', 'Q') => Some(23),
        ('I', 'S') => Some(26),
        ('I', 'T') => Some(27),
        ('J', 'O') => Some(30),
        ('K', 'W') => Some(30),
        ('K', 'Z') => Some(20),
        ('L', 'B') => Some(28),
        ('L', 'C') => Some(32),
        ('L', 'I') => Some(21),
        ('L', 'T') => Some(20),
        ('L', 'U') => Some(20),
        ('L', 'V') => Some(21),
        ('L', 'Y') => Some(25),
        ('M', 'C') => Some(27),
        ('M', 'D') => Some(24),
        ('M', 'E') => Some(22),
        ('M', 'K') => Some(19),
        ('M', 'N') => Some(20),
        ('M', 'R') => Some(27),
        ('M', 'T') => Some(31),
        ('M', 'U') => Some(30),
        ('N', 'I') => Some(28),
        ('N', 'L') => Some(18),
        ('N', 'O') => Some(15),
        ('O', 'M') => Some(23),
        ('P', 'K') => Some(24),
        ('P', 'L') => Some(28),
        ('P', 'S') => Some(29),
        ('P', 'T') => Some(25),
        ('Q', 'A') => Some(29),
        ('R', 'O') => Some(24),
        ('R', 'S') => Some(22),
        ('R', 'U') => Some(33),
        ('S', 'A') => Some(24),
        ('S', 'C') => Some(31),
        ('S', 'D') => Some(18),
        ('S', 'E') => Some(24),
        ('S', 'I') => Some(19),
        ('S', 'K') => Some(24),
        ('S', 'M') => Some(27),
        ('S', 'O') => Some(23),
        ('S', 'T') => Some(25),
        ('S', 'V') => Some(28),
        ('T', 'L') => Some(23),
        ('T', 'N') => Some(24),
        ('T', 'R') => Some(26),
        ('U', 'A') => Some(29),
        ('V', 'A') => Some(22),
        ('V', 'G') => Some(24),
        ('X', 'K') => Some(20),
        _ => None,
    }
}

/// Looks up a two-character country code given as a string slice.
pub fn lookup_length(code: &str) -> (r: Option<usize>)
    requires
        code@.len() == 2,
    ensures
        r == country_length(code@[0], code@[1]),
{
    let c0 = code.get_char(0);
    let c1 = code.get_char(1);
    lookup_chars(c0, c1)
}

} // verus!
