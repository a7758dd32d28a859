use vstd::prelude::*;

use crate::constants::SNDMORE;
use crate::message::Message;

verus! {

/// The flags for frame `i` of a multipart message of `count` frames sent
/// with `flags`: every frame but the last also carries `SNDMORE`.
pub open spec fn part_flags(flags: i32, count: int, i: int) -> i32 {
    if i < count - 1 {
        flags | SNDMORE
    } else {
        flags
    }
}

/// The flags with which the frames of a multipart message of `count`
/// frames are sent, in order.
pub fn send_multipart_flags(count: usize, flags: i32) -> (res: Vec<i32>)
    ensures
        res@.len() == count,
        forall|i: int| 0 <= i < count ==> #[trigger] res@[i] == part_flags(flags, count as int, i),
{
    let mut res: Vec<i32> = Vec::new();
    let mut i: usize = 0;
    while i < count
        invariant
            i <= count,
            res@.len() == i,
            forall|j: int| 0 <= j < i ==> #[trigger] res@[j] == part_flags(flags, count as int, j),
        decreases count - i,
    {
        if i + 1 < count {
            res.push(flags | SNDMORE);
        } else {
            res.push(flags);
        }
        i = i + 1;
    }
    res
}

/// The frames of a multipart message as they are received, one at a time.
///
/// Receiving ends with the first frame whose "more" flag is clear.
pub struct MultipartReceiver {
    parts: Vec<Vec<u8>>,
    done: bool,
}

impl MultipartReceiver {
    /// The frames received so far, in order.
    pub closed spec fn spec_parts(&self) -> Seq<Seq<u8>> {
        self.parts@.map_values(|p: Vec<u8>| p@)
    }

    /// Whether the last frame has been received.
    pub closed spec fn spec_done(&self) -> bool {
        self.done
    }

    /// A receiver that has received nothing yet.
    pub fn new() -> (r: MultipartReceiver)
        ensures
            r.spec_parts() == Seq::<Seq<u8>>::empty(),
            !r.spec_done(),
    {
        let r = MultipartReceiver { parts: Vec::new(), done: false };
        assert(r.spec_parts() =~= Seq::<Seq<u8>>::empty());
        r
    }

    /// Record a received frame and its "more" flag.
    pub fn push(&mut self, part: Vec<u8>, more: bool)
        requires
            !old(self).spec_done(),
        ensures
            final(self).spec_parts() == old(self).spec_parts().push(part@),
            final(self).spec_done() == !more,
    {
        let ghost before = self.parts@;
        let ghost p = part@;
        self.parts.push(part);
        self.done = !more;
        assert(self.parts@.map_values(|q: Vec<u8>| q@) =~= before.map_values(|q: Vec<u8>| q@).push(p));
    }

    /// Whether the last frame has been received.
    pub fn is_done(&self) -> (b: bool)
        ensures
            b == self.spec_done(),
    {
        self.done
    }

    /// The frames received, in order.
    pub fn into_parts(self) -> (parts: Vec<Vec<u8>>)
        ensures
            parts@.map_values(|p: Vec<u8>| p@) == self.spec_parts(),
    {
        self.parts
    }
}

/// Whether a frame sent with `flag` is marked as followed by more frames:
/// the "more" flag that the receiving side sees for it.
pub open spec fn more_flag(flag: i32) -> bool {
    flag & SNDMORE != 0
}

/// What a receiver holds after it has been offered the first `k` of the
/// frames `frames`, whose "more" flags are `mores`: as `MultipartReceiver::push`
/// does, each frame is taken while the receiver is not done, and the
/// receiver is done once it has taken a frame whose flag is clear; frames
/// offered after that are left alone.
pub open spec fn receive_frames(frames: Seq<Seq<u8>>, mores: Seq<bool>, k: nat) -> (
    Seq<Seq<u8>>,
    bool,
)
    decreases k,
{
    if k == 0 {
        (Seq::empty(), false)
    } else {
        let (parts, done) = receive_frames(frames, mores, (k - 1) as nat);
        if done {
            (parts, done)
        } else {
            (parts.push(frames[k - 1]), !mores[k - 1])
        }
    }
}

proof fn lemma_part_more_flags(flags: i32)
    requires
        flags & SNDMORE == 0,
    ensures
        more_flag(flags | SNDMORE),
        !more_flag(flags),
{
    assert((flags | 2i32) & 2i32 != 0) by (bit_vector);
}

/// Receiving what a multipart send sends gives back the same parts in the
/// same order, and nothing of what follows: where the first frames offered
/// to a receiver are the parts with the "more" flags that
/// `send_multipart_flags` gives them (sent with flags that do not already
/// ask for `SNDMORE`), the receiver holds the first `k` parts and is not
/// done while `k` is short of all of them, and holds exactly the parts and
/// is done from the last part on, whatever frames come after.
pub proof fn lemma_multipart_roundtrip(
    parts: Seq<Seq<u8>>,
    flags: i32,
    frames: Seq<Seq<u8>>,
    mores: Seq<bool>,
    k: nat,
)
    requires
        parts.len() > 0,
        flags & SNDMORE == 0,
        frames.len() == mores.len(),
        parts.len() <= frames.len(),
        frames.take(parts.len() as int) == parts,
        forall|i: int|
            0 <= i < parts.len() ==> #[trigger] mores[i] == more_flag(
                part_flags(flags, parts.len() as int, i),
            ),
        k <= frames.len(),
    ensures
        k < parts.len() ==> receive_frames(frames, mores, k) == (parts.take(k as int), false),
        k >= parts.len() ==> receive_frames(frames, mores, k) == (parts, true),
    decreases k,
{
    lemma_part_more_flags(flags);
    if k > 0 {
        let n = parts.len();
        lemma_multipart_roundtrip(parts, flags, frames, mores, (k - 1) as nat);
        if k <= n {
            assert(frames[k - 1] == parts[k - 1]) by {
                assert(frames.take(n as int)[k - 1] == frames[k - 1]);
            }
            assert(mores[k - 1] == more_flag(part_flags(flags, n as int, k - 1)));
            assert(parts.take(k - 1).push(parts[k - 1]) =~= parts.take(k as int));
            if k == n {
                assert(parts.take(n as int) =~= parts);
            }
        }
    }
}

/// One step of the model is one call of `MultipartReceiver::push`: a
/// receiver that is not done takes the next frame and is done exactly when
/// that frame's flag is clear; one that is done takes nothing more.
pub proof fn lemma_receive_step(frames: Seq<Seq<u8>>, mores: Seq<bool>, k: nat)
    ensures
        !receive_frames(frames, mores, k).1 ==> receive_frames(frames, mores, k + 1) == (
            receive_frames(frames, mores, k).0.push(frames[k as int]),
            !mores[k as int],
        ),
        receive_frames(frames, mores, k).1 ==> receive_frames(frames, mores, k + 1)
            == receive_frames(frames, mores, k),
{
    assert(((k + 1) as nat - 1) as nat == k);
}

/// The frames of a multipart message sent with `send_multipart_flags`
/// (with flags that do not already ask for `SNDMORE`) are marked as
/// followed by more frames exactly when they are not the last: where the
/// messages `received` were filled, in order, by the receives of the
/// `count` frames of one such message, each carrying the "more" flag of the
/// frame it holds, `Message::get_more` reports `true` for every message but
/// the last.
pub proof fn lemma_multipart_more_flags(flags: i32, count: int, received: Seq<Message>)
    requires
        flags & SNDMORE == 0,
        received.len() == count,
        forall|i: int|
            0 <= i < count ==> #[trigger] received[i].spec_more() == more_flag(
                part_flags(flags, count, i),
            ),
    ensures
        forall|i: int| 0 <= i < count ==> #[trigger] received[i].spec_more() == (i < count - 1),
{
    lemma_part_more_flags(flags);
}

} // verus!
