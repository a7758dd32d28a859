use core::cmp::Ordering;
use vstd::prelude::*;
use vstd::std_specs::cmp::{PartialOrdSpec, PartialOrdSpecImpl};

use crate::message::{
    lemma_lex_rank_bytewise, lemma_lex_rank_consistent, lex_rank, lex_rank_exec, Message,
};

verus! {

/// The ordering that a rank of -1, 0 or 1 stands for.
pub open spec fn rank_ordering(rank: int) -> Ordering {
    if rank < 0 {
        Ordering::Less
    } else if rank == 0 {
        Ordering::Equal
    } else {
        Ordering::Greater
    }
}

impl PartialOrd for Message {
    /// Frames are ordered by their bytes, lexicographically.
    fn partial_cmp(&self, other: &Message) -> (r: Option<Ordering>) {
        let rank = lex_rank_exec(self.as_bytes(), other.as_bytes());
        if rank < 0 {
            Some(Ordering::Less)
        } else if rank == 0 {
            Some(Ordering::Equal)
        } else {
            Some(Ordering::Greater)
        }
    }
}

impl PartialOrdSpecImpl for Message {
    open spec fn obeys_partial_cmp_spec() -> bool {
        true
    }

    open spec fn partial_cmp_spec(&self, other: &Message) -> Option<Ordering> {
        Some(rank_ordering(lex_rank(self@, other@)))
    }
}

/// `partial_cmp` orders frames byte by byte, each byte taken as an unsigned
/// number: where two frames first differ at position `i`, the one with the
/// smaller byte there is `Less` and the other `Greater`; a proper prefix of
/// a frame is `Less` than it; frames with the same bytes are `Equal`.
pub proof fn lemma_message_order_bytewise(a: Message, b: Message, i: int)
    ensures
        0 <= i < a@.len() && i < b@.len() && a@.take(i) == b@.take(i) && a@[i] < b@[i] ==> (
        PartialOrdSpec::partial_cmp_spec(&a, &b) == Some(Ordering::Less) && PartialOrdSpec::partial_cmp_spec(&b, &a) == Some(
            Ordering::Greater,
        )),
        a@.len() < b@.len() && a@.is_prefix_of(b@) ==> (PartialOrdSpec::partial_cmp_spec(&a, &b) == Some(
            Ordering::Less,
        ) && PartialOrdSpec::partial_cmp_spec(&b, &a) == Some(Ordering::Greater)),
        a@ == b@ ==> PartialOrdSpec::partial_cmp_spec(&a, &b) == Some(Ordering::Equal),
{
    lemma_lex_rank_bytewise(a@, b@, i);
    lemma_lex_rank_consistent(a@, b@);
}

} // verus!
