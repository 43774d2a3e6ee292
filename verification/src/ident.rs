//! The entity identifier: a 128-bit value with a canonical 36-character,
//! hyphenated, lower-case hexadecimal text form.
//!
//! The value reaches the core as text, generated by the host; parsing that
//! text is delegated to an outside parser behind a trusted wrapper, and a
//! malformed text is reported to the caller, which treats it as fatal. The
//! canonical text written back into the boundary summary is produced by
//! verified code, nibble by nibble.

use crate::text::{hex_digit_str, spec_hex_digit};
use vstd::prelude::*;
use vstd::string::StringExecFns;

verus! {

/// What the outside identifier parser yields on given text: the 128-bit
/// value, most significant byte leftmost, or nothing where the text is not a
/// recognised textual identifier form. The result depends on the text alone.
pub uninterp spec fn spec_parse_uuid(s: Seq<char>) -> Option<u128>;

/// Relies on `uuid::Uuid::parse_str` to recognise the textual identifier
/// forms, and on `Uuid::as_u128` to read the parsed value out big-endian;
/// both depend on the text alone.
#[verifier::external_body]
fn parse_uuid_text(s: &str) -> (r: Option<u128>)
    ensures
        r == spec_parse_uuid(s@),
{
    uuid::Uuid::parse_str(s).ok().map(|u| u.as_u128())
}

/// The identifier of an aggregate entity: a 128-bit value obtained from host
/// text exactly once, at construction, and immutable afterwards.
#[derive(Copy, Clone, PartialEq, Eq, Structural, Debug)]
pub struct Identifier {
    /// The 128-bit value; its most significant nibble comes first in the
    /// canonical text.
    pub bits: u128,
}

/// Nibble `k` of the value, `k == 0` being the most significant.
pub open spec fn spec_nibble(bits: u128, k: int) -> u128 {
    (bits >> ((4 * (31 - k)) as u128)) & 0xf
}

/// The separator written before nibble `k` of the canonical text: a hyphen
/// ahead of nibbles 8, 12, 16 and 20, splitting the 32 digits 8-4-4-4-12.
pub open spec fn spec_group_sep(k: int) -> Seq<char> {
    if k == 8 || k == 12 || k == 16 || k == 20 {
        seq!['-']
    } else {
        Seq::<char>::empty()
    }
}

/// The first `k` nibbles of the canonical text, separators included.
pub open spec fn spec_uuid_prefix(bits: u128, k: int) -> Seq<char>
    decreases k,
{
    if k <= 0 {
        Seq::<char>::empty()
    } else {
        spec_uuid_prefix(bits, k - 1) + spec_group_sep(k - 1)
            + seq![spec_hex_digit(spec_nibble(bits, k - 1) as nat)]
    }
}

/// The canonical 36-character hyphenated text of a 128-bit identifier.
pub open spec fn spec_uuid_text(bits: u128) -> Seq<char> {
    spec_uuid_prefix(bits, 32)
}

/// The canonical text has 36 characters: 32 digits and 4 hyphens.
pub proof fn lemma_uuid_text_len(bits: u128)
    ensures
        spec_uuid_text(bits).len() == 36,
{
    lemma_uuid_prefix_len(bits, 32);
}

proof fn lemma_uuid_prefix_len(bits: u128, k: int)
    requires
        0 <= k <= 32,
    ensures
        spec_uuid_prefix(bits, k).len() == k + if k <= 8 {
            0int
        } else if k <= 12 {
            1int
        } else if k <= 16 {
            2int
        } else if k <= 20 {
            3int
        } else {
            4int
        },
    decreases k,
{
    if k > 0 {
        lemma_uuid_prefix_len(bits, k - 1);
    }
}

/// Nibble `k` of the value, executable form.
fn nibble(bits: u128, k: usize) -> (n: u8)
    requires
        k < 32,
    ensures
        n as u128 == spec_nibble(bits, k as int),
        n < 16,
{
    let shift: u128 = (4 * (31 - k)) as u128;
    let v: u128 = (bits >> shift) & 0xf;
    proof {
        assert((bits >> shift) & 0xf < 16) by (bit_vector);
    }
    v as u8
}

impl Identifier {
    /// Parses host-supplied identifier text through the outside parser.
    /// Returns the identifier exactly when the text parses; the caller treats
    /// a failure as fatal, since the identifier is a structural invariant.
    pub fn parse(s: &str) -> (r: Option<Identifier>)
        ensures
            (r is Some) <==> (spec_parse_uuid(s@) is Some),
            r is Some ==> r.unwrap().bits == spec_parse_uuid(s@).unwrap(),
    {
        match parse_uuid_text(s) {
            Some(bits) => Some(Identifier { bits }),
            None => None,
        }
    }

    /// Writes the identifier in its canonical 36-character text form.
    pub fn canonical_text(&self) -> (s: String)
        ensures
            s@ == spec_uuid_text(self.bits),
            s@.len() == 36,
    {
        let mut s = String::new();
        let mut k: usize = 0;
        while k < 32
            invariant
                k <= 32,
                s@ == spec_uuid_prefix(self.bits, k as int),
            decreases 32 - k,
        {
            proof {
                reveal_strlit("-");
            }
            if k == 8 || k == 12 || k == 16 || k == 20 {
                s.append("-");
            }
            s.append(hex_digit_str(nibble(self.bits, k)));
            proof {
                assert("-"@ =~= seq!['-']);
                assert(s@ =~= spec_uuid_prefix(self.bits, k as int + 1));
            }
            k = k + 1;
        }
        proof {
            lemma_uuid_text_len(self.bits);
        }
        s
    }
}

} // verus!
