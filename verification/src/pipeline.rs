//! The watch pipeline: a pure filter-and-forward stage over block messages.
//!
//! For each block the pipeline walks the shards in delivered order and each
//! shard's records in execution order, keeps exactly the records whose owner
//! is watched, and tags every kept record with the block's height and its
//! kind. Emission order is discovery order; nothing is buffered, reordered,
//! deduplicated or retained across blocks.

use vstd::prelude::*;

use crate::account::WatchList;
use crate::matcher::change_kind;
use crate::matcher::is_watched;
use crate::matcher::spec_is_watched;
use crate::matcher::spec_kind;
use crate::record::BlockMessage;
use crate::record::BlockView;
use crate::record::MatchEvent;
use crate::record::MatchEventView;
use crate::record::StateChangeView;

verus! {

/// The events one record contributes: a singleton if its owner is watched,
/// nothing otherwise.
pub open spec fn record_events(
    height: u64,
    r: StateChangeView,
    watched: Seq<Seq<char>>,
) -> Seq<MatchEventView> {
    if spec_is_watched(r, watched) {
        seq![MatchEventView { height, kind: spec_kind(r), record: r }]
    } else {
        Seq::empty()
    }
}

/// The events of one shard's records, in record order.
pub open spec fn shard_events(
    height: u64,
    records: Seq<StateChangeView>,
    watched: Seq<Seq<char>>,
) -> Seq<MatchEventView>
    decreases records.len(),
{
    if records.len() == 0 {
        Seq::empty()
    } else {
        record_events(height, records[0], watched) + shard_events(
            height,
            records.drop_first(),
            watched,
        )
    }
}

/// The events of a block's shards, shard order first, record order within.
pub open spec fn shards_events(
    height: u64,
    shards: Seq<Seq<StateChangeView>>,
    watched: Seq<Seq<char>>,
) -> Seq<MatchEventView>
    decreases shards.len(),
{
    if shards.len() == 0 {
        Seq::empty()
    } else {
        shard_events(height, shards[0], watched) + shards_events(
            height,
            shards.drop_first(),
            watched,
        )
    }
}

/// Every event a block gives rise to, in discovery order, each tagged with
/// the block's own height.
pub open spec fn block_events(b: BlockView, watched: Seq<Seq<char>>) -> Seq<MatchEventView> {
    shards_events(b.height, b.shards, watched)
}

/// The events of a whole closed feed, block order preserved.
pub open spec fn stream_events(
    blocks: Seq<BlockView>,
    watched: Seq<Seq<char>>,
) -> Seq<MatchEventView>
    decreases blocks.len(),
{
    if blocks.len() == 0 {
        Seq::empty()
    } else {
        block_events(blocks[0], watched) + stream_events(blocks.drop_first(), watched)
    }
}

/// Appending a record to a shard appends that record's events.
pub proof fn lemma_shard_events_push(
    height: u64,
    records: Seq<StateChangeView>,
    r: StateChangeView,
    watched: Seq<Seq<char>>,
)
    ensures
        shard_events(height, records.push(r), watched) == shard_events(height, records, watched)
            + record_events(height, r, watched),
    decreases records.len(),
{
    reveal_with_fuel(shard_events, 3);
    let pushed = records.push(r);
    if records.len() == 0 {
        assert(pushed.drop_first() =~= Seq::<StateChangeView>::empty());
        assert(shard_events(height, pushed, watched) =~= shard_events(height, records, watched)
            + record_events(height, r, watched));
    } else {
        assert(pushed.drop_first() =~= records.drop_first().push(r));
        lemma_shard_events_push(height, records.drop_first(), r, watched);
        assert(shard_events(height, pushed, watched) =~= shard_events(height, records, watched)
            + record_events(height, r, watched));
    }
}

/// Appending a shard to a block appends that shard's events.
pub proof fn lemma_shards_events_push(
    height: u64,
    shards: Seq<Seq<StateChangeView>>,
    s: Seq<StateChangeView>,
    watched: Seq<Seq<char>>,
)
    ensures
        shards_events(height, shards.push(s), watched) == shards_events(height, shards, watched)
            + shard_events(height, s, watched),
    decreases shards.len(),
{
    reveal_with_fuel(shards_events, 3);
    let pushed = shards.push(s);
    if shards.len() == 0 {
        assert(pushed.drop_first() =~= Seq::<Seq<StateChangeView>>::empty());
        assert(shards_events(height, pushed, watched) =~= shards_events(height, shards, watched)
            + shard_events(height, s, watched));
    } else {
        assert(pushed.drop_first() =~= shards.drop_first().push(s));
        lemma_shards_events_push(height, shards.drop_first(), s, watched);
        assert(shards_events(height, pushed, watched) =~= shards_events(height, shards, watched)
            + shard_events(height, s, watched));
    }
}

/// Appending a block to a feed appends that block's events.
pub proof fn lemma_stream_events_push(blocks: Seq<BlockView>, b: BlockView, watched: Seq<Seq<char>>)
    ensures
        stream_events(blocks.push(b), watched) == stream_events(blocks, watched) + block_events(
            b,
            watched,
        ),
    decreases blocks.len(),
{
    reveal_with_fuel(stream_events, 3);
    let pushed = blocks.push(b);
    if blocks.len() == 0 {
        assert(pushed.drop_first() =~= Seq::<BlockView>::empty());
        assert(stream_events(pushed, watched) =~= stream_events(blocks, watched) + block_events(
            b,
            watched,
        ));
    } else {
        assert(pushed.drop_first() =~= blocks.drop_first().push(b));
        lemma_stream_events_push(blocks.drop_first(), b, watched);
        assert(stream_events(pushed, watched) =~= stream_events(blocks, watched) + block_events(
            b,
            watched,
        ));
    }
}

/// Law: in a block of two shards, the emitted sequence is exactly the
/// first shard's matches followed by the second shard's matches, each
/// shard's own record order kept.
pub proof fn lemma_two_shard_block_order(b: BlockView, watched: Seq<Seq<char>>)
    requires
        b.shards.len() == 2,
    ensures
        block_events(b, watched) == shard_events(b.height, b.shards[0], watched) + shard_events(
            b.height,
            b.shards[1],
            watched,
        ),
{
    reveal_with_fuel(shards_events, 4);
    assert(b.shards.drop_first().drop_first() =~= Seq::<Seq<StateChangeView>>::empty());
    assert(b.shards.drop_first()[0] == b.shards[1]);
    assert(block_events(b, watched) =~= shard_events(b.height, b.shards[0], watched)
        + shard_events(b.height, b.shards[1], watched));
}

/// Law: every event of one shard's output carries the given height.
pub proof fn lemma_shard_events_height(
    height: u64,
    records: Seq<StateChangeView>,
    watched: Seq<Seq<char>>,
)
    ensures
        forall|k: int| 0 <= k < shard_events(height, records, watched).len()
            ==> (#[trigger] shard_events(height, records, watched)[k]).height == height,
    decreases records.len(),
{
    if records.len() != 0 {
        lemma_shard_events_height(height, records.drop_first(), watched);
    }
}

/// Law: every event a block gives rise to carries that block's own height;
/// no event is ever attributed to another block.
pub proof fn lemma_block_events_height(b: BlockView, watched: Seq<Seq<char>>)
    ensures
        forall|k: int| 0 <= k < block_events(b, watched).len() ==> (#[trigger] block_events(
            b,
            watched,
        )[k]).height == b.height,
{
    lemma_shards_events_height(b.height, b.shards, watched);
}

proof fn lemma_shards_events_height(
    height: u64,
    shards: Seq<Seq<StateChangeView>>,
    watched: Seq<Seq<char>>,
)
    ensures
        forall|k: int| 0 <= k < shards_events(height, shards, watched).len()
            ==> (#[trigger] shards_events(height, shards, watched)[k]).height == height,
    decreases shards.len(),
{
    if shards.len() != 0 {
        lemma_shard_events_height(height, shards[0], watched);
        lemma_shards_events_height(height, shards.drop_first(), watched);
    }
}

/// Law: however blocks are interleaved or scheduled, height attribution
/// cannot be confused — an event arising from one block is never tagged
/// with the height of a block of a different height.
pub proof fn lemma_height_attribution(b1: BlockView, b2: BlockView, watched: Seq<Seq<char>>)
    requires
        b1.height != b2.height,
    ensures
        forall|k: int| 0 <= k < block_events(b1, watched).len() ==> (#[trigger] block_events(
            b1,
            watched,
        )[k]).height != b2.height,
{
    lemma_block_events_height(b1, watched);
}

/// Law: with the empty watch-list, no feed content produces any event.
pub proof fn lemma_empty_watch_list_no_events(blocks: Seq<BlockView>, watched: Seq<Seq<char>>)
    requires
        watched.len() == 0,
    ensures
        stream_events(blocks, watched).len() == 0,
    decreases blocks.len(),
{
    if blocks.len() != 0 {
        lemma_shards_events_empty_watch_list(blocks[0].height, blocks[0].shards, watched);
        lemma_empty_watch_list_no_events(blocks.drop_first(), watched);
    }
}

proof fn lemma_shard_events_empty_watch_list(
    height: u64,
    records: Seq<StateChangeView>,
    watched: Seq<Seq<char>>,
)
    requires
        watched.len() == 0,
    ensures
        shard_events(height, records, watched).len() == 0,
    decreases records.len(),
{
    if records.len() != 0 {
        lemma_shard_events_empty_watch_list(height, records.drop_first(), watched);
    }
}

proof fn lemma_shards_events_empty_watch_list(
    height: u64,
    shards: Seq<Seq<StateChangeView>>,
    watched: Seq<Seq<char>>,
)
    requires
        watched.len() == 0,
    ensures
        shards_events(height, shards, watched).len() == 0,
    decreases shards.len(),
{
    if shards.len() != 0 {
        lemma_shard_events_empty_watch_list(height, shards[0], watched);
        lemma_shards_events_empty_watch_list(height, shards.drop_first(), watched);
    }
}

/// The mathematical value of a vector of emitted events.
pub open spec fn events_view(events: Seq<MatchEvent>) -> Seq<MatchEventView> {
    events.map_values(|e: MatchEvent| e@)
}

/// Processes one block: emits exactly the watched records, in discovery
/// order (shard order, then intra-shard record order), each event tagged
/// with this block's height and the record's kind.
pub fn process_block(block: &BlockMessage, watched: &WatchList) -> (events: Vec<MatchEvent>)
    ensures
        events_view(events@) == block_events(block@, watched@),
{
    let mut events: Vec<MatchEvent> = Vec::new();
    let height: u64 = block.height;
    let mut si: usize = 0;
    while si < block.shards.len()
        invariant
            0 <= si <= block.shards@.len(),
            block@.shards.len() == block.shards@.len(),
            forall|j: int| 0 <= j < block.shards@.len() ==> #[trigger] block@.shards[j]
                == block.shards@[j]@,
            height == block@.height,
            events_view(events@) == shards_events(height, block@.shards.take(si as int), watched@),
        decreases block.shards@.len() - si,
    {
        let shard = &block.shards[si];
        let ghost done_shards = block@.shards.take(si as int);
        let mut ri: usize = 0;
        while ri < shard.state_changes.len()
            invariant
                0 <= ri <= shard.state_changes@.len(),
                shard@.len() == shard.state_changes@.len(),
                forall|j: int| 0 <= j < shard.state_changes@.len() ==> #[trigger] shard@[j]
                    == shard.state_changes@[j]@,
                height == block@.height,
                events_view(events@) == shards_events(height, done_shards, watched@)
                    + shard_events(height, shard@.take(ri as int), watched@),
            decreases shard.state_changes@.len() - ri,
        {
            let r = &shard.state_changes[ri];
            let ghost evs_before = events@;
            if is_watched(r, watched) {
                let e = MatchEvent { height, kind: change_kind(r), record: r.duplicate() };
                events.push(e);
            }
            proof {
                let r_v = shard@[ri as int];
                assert(events_view(events@) =~= events_view(evs_before) + record_events(
                    height,
                    r_v,
                    watched@,
                ));
                assert(shard@.take(ri + 1) =~= shard@.take(ri as int).push(r_v));
                lemma_shard_events_push(height, shard@.take(ri as int), r_v, watched@);
                assert(events_view(events@) =~= shards_events(height, done_shards, watched@)
                    + shard_events(height, shard@.take(ri + 1), watched@));
            }
            ri = ri + 1;
        }
        proof {
            assert(shard@.take(shard@.len() as int) =~= shard@);
            assert(block@.shards.take(si + 1) =~= done_shards.push(block@.shards[si as int]));
            lemma_shards_events_push(height, done_shards, block@.shards[si as int], watched@);
        }
        si = si + 1;
    }
    proof {
        assert(block@.shards.take(block@.shards.len() as int) =~= block@.shards);
    }
    events
}

/// Processes a closed feed of blocks in arrival order; the emitted events
/// are exactly the concatenation of each block's events, block order kept.
pub fn process_blocks(blocks: &Vec<BlockMessage>, watched: &WatchList) -> (events: Vec<MatchEvent>)
    ensures
        events_view(events@) == stream_events(
            blocks@.map_values(|b: BlockMessage| b@),
            watched@,
        ),
{
    let ghost stream = blocks@.map_values(|b: BlockMessage| b@);
    let mut events: Vec<MatchEvent> = Vec::new();
    let mut bi: usize = 0;
    while bi < blocks.len()
        invariant
            0 <= bi <= blocks@.len(),
            stream == blocks@.map_values(|b: BlockMessage| b@),
            stream.len() == blocks@.len(),
            forall|j: int| 0 <= j < blocks@.len() ==> #[trigger] stream[j] == blocks@[j]@,
            events_view(events@) == stream_events(stream.take(bi as int), watched@),
        decreases blocks@.len() - bi,
    {
        let mut block_out = process_block(&blocks[bi], watched);
        let ghost evs_before = events@;
        let ghost out_view = block_out@;
        events.append(&mut block_out);
        proof {
            assert(stream.take(bi + 1) =~= stream.take(bi as int).push(stream[bi as int]));
            lemma_stream_events_push(stream.take(bi as int), stream[bi as int], watched@);
            assert(events_view(events@) =~= events_view(evs_before) + events_view(out_view));
            assert(events_view(events@) =~= stream_events(stream.take(bi + 1), watched@));
        }
        bi = bi + 1;
    }
    proof {
        assert(stream.take(stream.len() as int) =~= stream);
    }
    events
}

} // verus!
