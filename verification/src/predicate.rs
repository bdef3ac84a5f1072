//! A model of the predicate program that the proof attests to.
//!
//! The predicate reads one journal-encoded value, checks that it is even,
//! and commits the value back in the canonical journal layout.  The
//! proving backend runs the real program; this model gives the pipeline
//! and its tests an exact statement of what that program commits.

use crate::codec::{
    be_value, decode_journal, encode_journal, journal_layout_ok, lemma_decode_encode_round_trip,
    spec_encode_journal,
};
use vstd::prelude::*;

verus! {

/// Rejection cases of [`run_predicate`].
#[derive(Clone, Copy, Debug, PartialEq, Eq, Structural)]
pub enum PredicateError {
    /// The input bytes are not a well-formed journal word.
    MalformedInput,
    /// The input decodes, but the decoded value fails the parity check.
    Violated,
}

/// The predicate holds of a value when it is even.
pub open spec fn predicate_holds(v: u128) -> bool {
    v % 2 == 0
}

/// The predicate program accepts exactly the well-formed journal words
/// whose value is even.
pub open spec fn predicate_accepts(input: Seq<u8>) -> bool {
    journal_layout_ok(input) && (be_value(input) as u128) % 2 == 0
}

/// Runs the predicate on an encoded input: decodes the value, checks the
/// parity predicate, and commits the value back as the journal.
pub fn run_predicate(input: &Vec<u8>) -> (r: Result<Vec<u8>, PredicateError>)
    ensures
        predicate_accepts(input@) ==> (r matches Ok(journal) && journal@ == input@),
        journal_layout_ok(input@) && !predicate_accepts(input@) ==> r == Err::<
            Vec<u8>,
            PredicateError,
        >(PredicateError::Violated),
        !journal_layout_ok(input@) ==> r == Err::<Vec<u8>, PredicateError>(
            PredicateError::MalformedInput,
        ),
{
    let value = match decode_journal(input) {
        Ok(v) => v,
        Err(_) => {
            return Err(PredicateError::MalformedInput);
        },
    };
    if value % 2 != 0 {
        return Err(PredicateError::Violated);
    }
    let journal = encode_journal(value);
    proof {
        lemma_decode_encode_round_trip(input@);
    }
    Ok(journal)
}

/// Law: an input encoding an odd value is always rejected as a predicate
/// violation, and an input encoding an even value is always accepted with
/// the input itself as the committed journal.
pub proof fn lemma_predicate_parity(v: u128)
    ensures
        predicate_holds(v) <==> predicate_accepts(spec_encode_journal(v)),
{
    crate::codec::lemma_encode_decode_round_trip(v);
}

} // verus!
