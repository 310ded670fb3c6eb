//! Bounded single-producer/single-consumer sample queue bridging a capture
//! stream to a playback stream.
//!
//! The queue itself is the `rb` crate's ring buffer; this module holds it
//! behind contracts over a sequence model of its pending samples. Capacity
//! is fixed at construction, each written sample is read back exactly once,
//! in order, and nothing is reordered or duplicated on the way through.
//! A full queue rejects the producer's block outright rather than blocking
//! or silently dropping it: whether to wait, retry or count the loss is the
//! producer's explicit decision.

use vstd::prelude::*;
use rb::RB;
use rb::RbConsumer;
use rb::RbInspector;
use rb::RbProducer;

verus! {

/// A queue operation that could not make progress.
#[derive(Clone, Copy, Debug, PartialEq, Eq, Structural)]
pub enum BridgeError {
    /// No free slot for any sample of a non-empty block.
    Full,
    /// Nothing pending to read.
    Empty,
}

/// The bounded block queue connecting one capture session to one playback
/// session. Exactly one producer and one consumer; this handle serialises
/// both roles.
#[verifier::external_body]
pub struct LoopbackBridge {
    queue: rb::SpscRb<i16>,
    producer: rb::Producer<i16>,
    consumer: rb::Consumer<i16>,
}

/// The samples currently pending in the queue, oldest first.
pub uninterp spec fn bridge_contents(b: LoopbackBridge) -> Seq<i16>;

/// The fixed capacity the queue was constructed with.
pub uninterp spec fn bridge_capacity(b: LoopbackBridge) -> nat;

impl LoopbackBridge {
    /// Relies on `rb::SpscRb::new` and its `producer`/`consumer` views: a
    /// fresh queue of the given capacity holds nothing.
    #[verifier::external_body]
    pub fn new(capacity: usize) -> (r: LoopbackBridge)
        ensures
            bridge_capacity(r) == capacity,
            bridge_contents(r) == Seq::<i16>::empty(),
    {
        let queue = rb::SpscRb::new(capacity);
        let producer = queue.producer();
        let consumer = queue.consumer();
        LoopbackBridge { queue, producer, consumer }
    }

    /// Relies on `rb::RbInspector::capacity` of `rb::SpscRb`.
    #[verifier::external_body]
    pub fn capacity(&self) -> (r: usize)
        ensures
            r == bridge_capacity(*self),
    {
        self.queue.capacity()
    }

    /// Relies on `rb::RbInspector::count` of `rb::SpscRb`: how many samples
    /// are pending.
    #[verifier::external_body]
    pub fn count(&self) -> (r: usize)
        ensures
            r == bridge_contents(*self).len(),
    {
        self.queue.count()
    }

    /// Relies on `rb::RbProducer::write`: appends as much of the block as
    /// fits, in order, and reports how many samples went in; an empty block
    /// writes nothing, and `Full` comes exactly when a non-empty block finds
    /// no free slot.
    #[verifier::external_body]
    pub fn write(&mut self, block: &Vec<i16>) -> (r: Result<usize, BridgeError>)
        ensures
            bridge_capacity(*final(self)) == bridge_capacity(*old(self)),
            ({
                let cap = bridge_capacity(*old(self)) as int;
                let pending = bridge_contents(*old(self));
                match r {
                    Ok(n) => {
                        &&& n <= block@.len()
                        &&& bridge_contents(*final(self)) == pending + block@.take(n as int)
                        &&& if block@.len() == 0 {
                            n == 0
                        } else {
                            pending.len() < cap
                                && n == vstd::math::min(block@.len() as int, cap - pending.len())
                        }
                    },
                    Err(e) => {
                        &&& e == BridgeError::Full
                        &&& block@.len() > 0
                        &&& pending.len() == cap
                        &&& *final(self) == *old(self)
                    },
                }
            }),
    {
        if block.is_empty() {
            return Ok(0);
        }
        match self.producer.write(block.as_slice()) {
            Ok(n) => Ok(n),
            Err(_) => Err(BridgeError::Full),
        }
    }

    /// Relies on `rb::RbConsumer::read`: moves out up to `max` samples,
    /// oldest first; `Empty` comes exactly when samples were asked for and
    /// none is pending.
    #[verifier::external_body]
    pub fn read(&mut self, max: usize) -> (r: Result<Vec<i16>, BridgeError>)
        ensures
            bridge_capacity(*final(self)) == bridge_capacity(*old(self)),
            ({
                let pending = bridge_contents(*old(self));
                match r {
                    Ok(v) => {
                        &&& if max == 0 {
                            v@.len() == 0 && *final(self) == *old(self)
                        } else {
                            pending.len() > 0
                                && v@ == pending.take(vstd::math::min(max as int, pending.len() as int))
                                && bridge_contents(*final(self)) == pending.skip(v@.len() as int)
                        }
                    },
                    Err(e) => {
                        &&& e == BridgeError::Empty
                        &&& max > 0
                        &&& pending.len() == 0
                        &&& *final(self) == *old(self)
                    },
                }
            }),
    {
        let mut buf = vec![0i16; max];
        if max == 0 {
            return Ok(buf);
        }
        match self.consumer.read(buf.as_mut_slice()) {
            Ok(n) => {
                buf.truncate(n);
                Ok(buf)
            },
            Err(_) => Err(BridgeError::Empty),
        }
    }

    /// How many samples the producer can still store before the queue is
    /// full.
    pub fn free_slots(&self) -> (r: usize)
        ensures
            r == if bridge_contents(*self).len() <= bridge_capacity(*self) {
                bridge_capacity(*self) - bridge_contents(*self).len()
            } else {
                0
            },
    {
        let cap = self.capacity();
        let used = self.count();
        if used <= cap {
            cap - used
        } else {
            0
        }
    }

    /// Writes every block into an idle bridge with room for all of them,
    /// then drains the queue block by block: the consumer receives the
    /// producer's blocks in writing order, with identical content, each
    /// exactly once, and the bridge ends idle again.
    pub fn deliver_blocks(&mut self, blocks: &Vec<Vec<i16>>) -> (r: Vec<Vec<i16>>)
        requires
            bridge_contents(*old(self)).len() == 0,
            concat_blocks(block_views(*blocks)).len() <= bridge_capacity(*old(self)),
        ensures
            bridge_capacity(*final(self)) == bridge_capacity(*old(self)),
            bridge_contents(*final(self)).len() == 0,
            r@.len() == blocks@.len(),
            forall|j: int| 0 <= j < blocks@.len() ==> #[trigger] r@[j]@ == blocks@[j]@,
    {
        let ghost views = block_views(*blocks);
        let ghost cap0 = bridge_capacity(*old(self));
        let mut i: usize = 0;
        while i < blocks.len()
            invariant
                0 <= i <= blocks@.len(),
                views == block_views(*blocks),
                views.len() == blocks@.len(),
                bridge_capacity(*self) == cap0,
                concat_blocks(views).len() <= cap0,
                bridge_contents(*self) == concat_blocks(views.take(i as int)),
            decreases blocks@.len() - i,
        {
            proof {
                lemma_concat_split(views, i as int);
                lemma_concat_skip_step(views, i as int);
                lemma_concat_take_step(views, i as int);
            }
            let block = &blocks[i];
            match self.write(block) {
                Ok(n) => {
                    proof {
                        assert(n == block@.len());
                        assert(block@.take(n as int) =~= block@);
                    }
                },
                Err(_) => {
                    proof {
                        assert(false);
                    }
                },
            }
            i = i + 1;
        }
        proof {
            assert(views.take(blocks@.len() as int) =~= views);
        }
        let mut out: Vec<Vec<i16>> = Vec::new();
        let mut j: usize = 0;
        while j < blocks.len()
            invariant
                0 <= j <= blocks@.len(),
                views == block_views(*blocks),
                views.len() == blocks@.len(),
                bridge_capacity(*self) == cap0,
                bridge_contents(*self) == concat_blocks(views.skip(j as int)),
                out@.len() == j,
                forall|k: int| 0 <= k < j ==> #[trigger] out@[k]@ == blocks@[k]@,
            decreases blocks@.len() - j,
        {
            proof {
                lemma_concat_skip_step(views, j as int);
                lemma_write_preserves_order(views[j as int], concat_blocks(views.skip(j as int + 1)));
            }
            let want = blocks[j].len();
            let ghost pending = bridge_contents(*self);
            match self.read(want) {
                Ok(v) => {
                    proof {
                        if want == 0 {
                            assert(v@ =~= views[j as int]);
                            assert(bridge_contents(*self)
                                =~= concat_blocks(views.skip(j as int + 1)));
                        } else {
                            assert(vstd::math::min(want as int, pending.len() as int) == want);
                        }
                    }
                    out.push(v);
                },
                Err(_) => {
                    proof {
                        assert(false);
                    }
                },
            }
            j = j + 1;
        }
        proof {
            assert(views.skip(blocks@.len() as int) =~= Seq::<Seq<i16>>::empty());
        }
        out
    }

    /// Hands one captured block to the playback side through an otherwise
    /// idle bridge: the block goes in whole and comes back out identical,
    /// leaving the bridge idle again.
    pub fn loopback_transfer(&mut self, block: &Vec<i16>) -> (r: Result<Vec<i16>, BridgeError>)
        requires
            bridge_contents(*old(self)).len() == 0,
            0 < block@.len() <= bridge_capacity(*old(self)),
        ensures
            bridge_capacity(*final(self)) == bridge_capacity(*old(self)),
            match r {
                Ok(v) => v@ == block@ && bridge_contents(*final(self)).len() == 0,
                Err(e) => false,
            },
    {
        let n = match self.write(block) {
            Ok(n) => n,
            Err(e) => {
                proof {
                    assert(false);
                }
                return Err(e);
            },
        };
        proof {
            assert(n == block@.len());
            assert(bridge_contents(*self) =~= block@);
        }
        match self.read(block.len()) {
            Ok(v) => {
                proof {
                    assert(v@ =~= block@);
                    assert(bridge_contents(*self) =~= Seq::<i16>::empty());
                }
                Ok(v)
            },
            Err(e) => {
                proof {
                    assert(false);
                }
                Err(e)
            },
        }
    }
}

/// All blocks laid end to end, in writing order.
pub open spec fn concat_blocks(blocks: Seq<Seq<i16>>) -> Seq<i16>
    decreases blocks.len(),
{
    if blocks.len() == 0 {
        Seq::<i16>::empty()
    } else {
        blocks.first() + concat_blocks(blocks.drop_first())
    }
}

/// The views of a vector of blocks.
pub open spec fn block_views(blocks: Vec<Vec<i16>>) -> Seq<Seq<i16>> {
    blocks@.map_values(|b: Vec<i16>| b@)
}

/// Concatenation splits at any block boundary.
pub proof fn lemma_concat_split(blocks: Seq<Seq<i16>>, i: int)
    requires
        0 <= i <= blocks.len(),
    ensures
        concat_blocks(blocks) == concat_blocks(blocks.take(i)) + concat_blocks(blocks.skip(i)),
    decreases i,
{
    if i == 0 {
        assert(blocks.take(0) =~= Seq::<Seq<i16>>::empty());
        assert(blocks.skip(0) =~= blocks);
        assert(concat_blocks(blocks.take(0)) + concat_blocks(blocks) =~= concat_blocks(blocks));
    } else {
        lemma_concat_split(blocks.drop_first(), i - 1);
        assert(blocks.take(i).first() == blocks.first());
        assert(blocks.take(i).drop_first() =~= blocks.drop_first().take(i - 1));
        assert(blocks.skip(i) =~= blocks.drop_first().skip(i - 1));
        assert((blocks.first() + concat_blocks(blocks.drop_first().take(i - 1)))
            + concat_blocks(blocks.drop_first().skip(i - 1))
            =~= blocks.first() + (concat_blocks(blocks.drop_first().take(i - 1))
                + concat_blocks(blocks.drop_first().skip(i - 1))));
    }
}

/// Extending a written prefix by one block appends that block.
pub proof fn lemma_concat_take_step(blocks: Seq<Seq<i16>>, i: int)
    requires
        0 <= i < blocks.len(),
    ensures
        concat_blocks(blocks.take(i + 1)) == concat_blocks(blocks.take(i)) + blocks[i],
{
    lemma_concat_split(blocks.take(i + 1), i);
    assert(blocks.take(i + 1).take(i) =~= blocks.take(i));
    let tail = blocks.take(i + 1).skip(i);
    assert(tail.drop_first() =~= Seq::<Seq<i16>>::empty());
    assert(concat_blocks(tail) == tail.first() + concat_blocks(tail.drop_first()));
    assert(concat_blocks(tail) =~= blocks[i]);
}

/// The samples still pending after `i` blocks start with block `i`.
pub proof fn lemma_concat_skip_step(blocks: Seq<Seq<i16>>, i: int)
    requires
        0 <= i < blocks.len(),
    ensures
        concat_blocks(blocks.skip(i)) == blocks[i] + concat_blocks(blocks.skip(i + 1)),
{
    let rest = blocks.skip(i);
    assert(rest.first() == blocks[i]);
    assert(rest.drop_first() =~= blocks.skip(i + 1));
    assert(concat_blocks(rest) == rest.first() + concat_blocks(rest.drop_first()));
}

/// Frames cross the bridge exactly once and in order: however the pending
/// sequence `s` is split into a first read of `k` samples and the rest,
/// the two reads together return precisely `s`, nothing repeated and
/// nothing lost.
pub proof fn lemma_frames_delivered_once_in_order(s: Seq<i16>, k: int)
    requires
        0 <= k <= s.len(),
    ensures
        s.take(k) + s.skip(k) == s,
{
    assert(s.take(k) + s.skip(k) =~= s);
}

/// Writing a block appends it after what is already pending: every pending
/// frame drains before any frame of the new block, and the block itself
/// drains in its own order.
pub proof fn lemma_write_preserves_order(pending: Seq<i16>, block: Seq<i16>)
    ensures
        (pending + block).take(pending.len() as int) == pending,
        (pending + block).skip(pending.len() as int) == block,
{
    assert((pending + block).take(pending.len() as int) =~= pending);
    assert((pending + block).skip(pending.len() as int) =~= block);
}

} // verus!
