//! Choosing the one player to show among those that answered.

use vstd::prelude::*;
use crate::track::{PlaybackState, PlayerError, TrackInfo};

verus! {

/// Scans from `i` for a playing candidate; when none is left, falls back to
/// the last candidate.
pub open spec fn playing_from(s: Seq<TrackInfo>, i: int) -> int
    decreases s.len() - i,
{
    if i < 0 || i >= s.len() {
        s.len() - 1
    } else if s[i].status == PlaybackState::Playing {
        i
    } else {
        playing_from(s, i + 1)
    }
}

/// Index of the candidate to display: the first one playing, else the last.
pub open spec fn chosen_index(s: Seq<TrackInfo>) -> int {
    playing_from(s, 0)
}

/// The candidates that answered, in enumeration order.
pub open spec fn answered(s: Seq<Result<TrackInfo, PlayerError>>) -> Seq<TrackInfo>
    decreases s.len(),
{
    if s.len() == 0 {
        Seq::empty()
    } else {
        let rest = answered(s.drop_first());
        match s[0] {
            Ok(t) => seq![t] + rest,
            Err(_) => rest,
        }
    }
}

/// Picks the track to display: the first candidate that is playing, or the
/// last candidate when none is; fails with `NoPlayer` when there are none.
pub fn resolve(candidates: Vec<TrackInfo>) -> (r: Result<TrackInfo, PlayerError>)
    ensures
        candidates@.len() == 0 <==> r == Err::<TrackInfo, PlayerError>(PlayerError::NoPlayer),
        candidates@.len() > 0 ==> r == Ok::<TrackInfo, PlayerError>(
            candidates@[chosen_index(candidates@)],
        ),
{
    let mut candidates = candidates;
    let n = candidates.len();
    if n == 0 {
        return Err(PlayerError::NoPlayer);
    }
    let mut i: usize = 0;
    while i < n && candidates[i].status != PlaybackState::Playing
        invariant
            0 <= i <= n,
            n == candidates@.len(),
            n > 0,
            playing_from(candidates@, 0) == playing_from(candidates@, i as int),
        decreases n - i,
    {
        i += 1;
    }
    let k = if i < n {
        i
    } else {
        n - 1
    };
    Ok(candidates.remove(k))
}

/// Gathers the candidates that answered, dropping those that did not, and
/// resolves among them.
pub fn player_info(replies: Vec<Result<TrackInfo, PlayerError>>) -> (r: Result<TrackInfo, PlayerError>)
    ensures
        answered(replies@).len() == 0 <==> r == Err::<TrackInfo, PlayerError>(PlayerError::NoPlayer),
        answered(replies@).len() > 0 ==> r == Ok::<TrackInfo, PlayerError>(
            answered(replies@)[chosen_index(answered(replies@))],
        ),
{
    let candidates = collect_answered(replies);
    resolve(candidates)
}

/// The tracks of the candidates that answered, in their order.
pub fn collect_answered(replies: Vec<Result<TrackInfo, PlayerError>>) -> (r: Vec<TrackInfo>)
    ensures
        r@ == answered(replies@),
{
    let mut rest = replies;
    let mut out: Vec<TrackInfo> = Vec::new();
    while rest.len() > 0
        invariant
            out@ + answered(rest@) == answered(replies@),
        decreases rest.len(),
    {
        let ghost before = rest@;
        let ghost prior = out@;
        let reply = rest.remove(0);
        proof {
            assert(rest@ == before.drop_first());
        }
        match reply {
            Ok(t) => {
                out.push(t);
                assert(out@ + answered(rest@) =~= prior + answered(before));
            },
            Err(_) => {},
        }
    }
    assert(answered(rest@) == Seq::<TrackInfo>::empty());
    assert(out@ =~= out@ + answered(rest@));
    out
}

proof fn lemma_playing_from(s: Seq<TrackInfo>, i: int)
    requires
        0 <= i <= s.len(),
        s.len() > 0,
    ensures
        i <= playing_from(s, i) < s.len() || (i == s.len() && playing_from(s, i) == s.len() - 1),
        0 <= playing_from(s, i) < s.len(),
        forall|j: int| i <= j < playing_from(s, i) ==> s[j].status != PlaybackState::Playing,
        (exists|j: int| i <= j < s.len() && s[j].status == PlaybackState::Playing) ==> s[playing_from(s, i)].status
            == PlaybackState::Playing,
        (forall|j: int| i <= j < s.len() ==> s[j].status != PlaybackState::Playing) ==> playing_from(s, i)
            == s.len() - 1,
    decreases s.len() - i,
{
    if i < s.len() && s[i].status != PlaybackState::Playing {
        lemma_playing_from(s, i + 1);
        assert forall|j: int| i <= j < s.len() && #[trigger] s[j].status == PlaybackState::Playing implies
            s[playing_from(s, i)].status == PlaybackState::Playing by {
            assert(i + 1 <= j);
        }
    }
}

/// The resolver shows a playing candidate whenever one exists, namely the
/// first in enumeration order; when none is playing it shows the last one.
pub proof fn lemma_resolve_priority(s: Seq<TrackInfo>)
    requires
        s.len() > 0,
    ensures
        0 <= chosen_index(s) < s.len(),
        (exists|j: int| 0 <= j < s.len() && s[j].status == PlaybackState::Playing) ==> {
            &&& s[chosen_index(s)].status == PlaybackState::Playing
            &&& forall|j: int| 0 <= j < chosen_index(s) ==> s[j].status != PlaybackState::Playing
        },
        (forall|j: int| 0 <= j < s.len() ==> s[j].status != PlaybackState::Playing) ==> chosen_index(s)
            == s.len() - 1,
{
    lemma_playing_from(s, 0);
}

proof fn lemma_answered_concat(a: Seq<Result<TrackInfo, PlayerError>>, b: Seq<Result<TrackInfo, PlayerError>>)
    ensures
        answered(a + b) == answered(a) + answered(b),
    decreases a.len(),
{
    if a.len() == 0 {
        assert(a + b =~= b);
        assert(answered(a) + answered(b) =~= answered(b));
    } else {
        assert((a + b).drop_first() =~= a.drop_first() + b);
        lemma_answered_concat(a.drop_first(), b);
        assert(answered(a + b) =~= answered(a) + answered(b));
    }
}

/// A candidate that did not answer is dropped without disturbing the others:
/// the candidates before and after it are gathered exactly as if it had never
/// been enumerated.
pub proof fn lemma_unreachable_isolated(
    before: Seq<Result<TrackInfo, PlayerError>>,
    failure: PlayerError,
    after: Seq<Result<TrackInfo, PlayerError>>,
)
    ensures
        answered(before + seq![Err(failure)] + after) == answered(before + after),
{
    let e: Seq<Result<TrackInfo, PlayerError>> = seq![Err(failure)];
    lemma_answered_concat(before + e, after);
    lemma_answered_concat(before, e);
    lemma_answered_concat(before, after);
    assert(e.drop_first() =~= Seq::<Result<TrackInfo, PlayerError>>::empty());
    assert(answered(e.drop_first()) =~= Seq::<TrackInfo>::empty());
    assert(e[0] is Err);
    assert(answered(e) =~= Seq::<TrackInfo>::empty());
    assert(answered(before) + answered(e) =~= answered(before));
}

/// Every candidate that answered is among those handed to the resolver.
pub proof fn lemma_answered_kept(s: Seq<Result<TrackInfo, PlayerError>>, i: int)
    requires
        0 <= i < s.len(),
        s[i] is Ok,
    ensures
        answered(s).contains(s[i]->Ok_0),
    decreases s.len(),
{
    if i == 0 {
        assert(answered(s)[0] == s[0]->Ok_0);
    } else {
        lemma_answered_kept(s.drop_first(), i - 1);
        let t = s[i]->Ok_0;
        let rest = answered(s.drop_first());
        let k = choose|k: int| 0 <= k < rest.len() && rest[k] == t;
        match s[0] {
            Ok(h) => {
                assert(answered(s)[k + 1] == t);
            },
            Err(_) => {
                assert(answered(s)[k] == t);
            },
        }
    }
}

} // verus!
