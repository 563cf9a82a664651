//! The popup's identity: the host's retained open/closed state is keyed by
//! an identity derived deterministically from a caller-supplied seed.

use vstd::prelude::*;

verus! {

/// The identity the host derives from a seed string.
pub uninterp spec fn popup_id_of(seed: Seq<char>) -> u64;

/// Relies on `egui::Id::new`, which hashes its source with a fixed-seed
/// hasher state, and `egui::Id::value`, which returns that hash: the
/// identity is a function of the seed's characters alone, so it is named by
/// `popup_id_of`.
#[verifier::external_body]
pub(crate) fn derive_popup_id(seed: &str) -> (r: u64)
    ensures
        r == popup_id_of(seed@),
{
    egui::Id::new(seed).value()
}

/// Identity stability: two controls seeded alike resolve to the same popup
/// identity, so the host's retained popup state carries across frames.
pub proof fn lemma_identity_stable(s1: Seq<char>, s2: Seq<char>)
    requires
        s1 == s2,
    ensures
        popup_id_of(s1) == popup_id_of(s2),
{
}

} // verus!
