//! Decoration that lasts for a moment: the trail of the ball and the dust it raises.

use vstd::prelude::*;

verus! {

/// Positions that the trail holds.
pub const TRAIL_LEN: usize = 9;

/// Specks of dust above which the oldest go.
pub const DUST_LIMIT: usize = 80;

/// Specks that go at once.
pub const DUST_DROPPED: usize = 20;

/// The trail is extended in every other frame.
pub fn trail_due(frame: u64) -> (r: bool)
    ensures
        r == (frame % 2 == 0),
{
    frame % 2 == 0
}

/// The trail with a new position in front, cut to its length.
pub open spec fn extended<T>(trail: Seq<T>, p: T) -> Seq<T> {
    let all = seq![p] + trail;
    if all.len() > TRAIL_LEN {
        all.take(TRAIL_LEN as int)
    } else {
        all
    }
}

/// Puts a position in front of the trail.
pub fn extend_trail<T>(trail: &mut Vec<T>, p: T)
    ensures
        final(trail)@ == extended(old(trail)@, p),
{
    trail.insert(0, p);
    assert(trail@ =~= seq![p] + old(trail)@);
    trail.truncate(TRAIL_LEN);
    assert(trail@ =~= extended(old(trail)@, p));
}

/// The dust without its oldest specks, if there is too much of it.
pub open spec fn settled<T>(dust: Seq<T>) -> Seq<T> {
    if dust.len() > DUST_LIMIT {
        dust.skip(DUST_DROPPED as int)
    } else {
        dust
    }
}

/// Drops the oldest specks of dust if there is too much of it.
pub fn settle_dust<T>(dust: &mut Vec<T>)
    ensures
        final(dust)@ == settled(old(dust)@),
{
    if dust.len() > DUST_LIMIT {
        let rest = dust.split_off(DUST_DROPPED);
        assert(rest@ =~= settled(old(dust)@));
        *dust = rest;
    }
}

/// The trail never grows beyond its length.
pub proof fn law_trail_bounded<T>(trail: Seq<T>, p: T)
    ensures
        extended(trail, p).len() <= TRAIL_LEN,
        extended(trail, p)[0] == p,
        forall|i: int| 0 <= i < extended(trail, p).len() - 1 ==> extended(trail, p)[i + 1] == trail[i],
{
}

/// Dust is bounded: after at most `DUST_DROPPED` new specks there are again no more
/// than `DUST_LIMIT`, and those that go are the oldest.
pub proof fn law_dust_bounded<T>(dust: Seq<T>, fresh: Seq<T>)
    requires
        dust.len() <= DUST_LIMIT,
        fresh.len() <= DUST_DROPPED,
    ensures
        settled(dust + fresh).len() <= DUST_LIMIT,
        exists|n: int|
            0 <= n <= DUST_DROPPED && settled(dust + fresh) == #[trigger] (dust + fresh).skip(n),
{
    let all = dust + fresh;
    if all.len() > DUST_LIMIT {
        assert(settled(all) == all.skip(DUST_DROPPED as int));
    } else {
        assert(settled(all) =~= all.skip(0));
    }
}

} // verus!
