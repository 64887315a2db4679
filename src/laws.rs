//! What holds of the mapping for every listing.
use vstd::prelude::*;
use crate::jellyfin::{Item, played, tmdb_of};
use crate::ryot::{record, ItemView, SeenHistory};
use crate::export::{
    movie_record, movie_records, season_entries, season_history, show_history, show_record,
    show_records, FetchedSeason, FetchedShow,
};

verus! {

/// The records of two listings laid end to end are the records of each, laid end to end.
pub proof fn lemma_movie_records_concat(a: Seq<Item>, b: Seq<Item>)
    ensures
        movie_records(a + b) == movie_records(a) + movie_records(b),
    decreases b.len(),
{
    if b.len() == 0 {
        assert(a + b =~= a);
        assert(movie_records(a) + movie_records(b) =~= movie_records(a));
    } else {
        assert((a + b).drop_last() =~= a + b.drop_last());
        assert((a + b).last() == b.last());
        lemma_movie_records_concat(a, b.drop_last());
        match movie_record(b.last()) {
            Some(r) => {
                assert(movie_records(a) + movie_records(b.drop_last()).push(r)
                    =~= (movie_records(a) + movie_records(b.drop_last())).push(r));
            },
            None => {},
        }
    }
}

/// The records of two show listings laid end to end are the records of each, laid end to end.
pub proof fn lemma_show_records_concat(a: Seq<FetchedShow>, b: Seq<FetchedShow>)
    ensures
        show_records(a + b) == show_records(a) + show_records(b),
    decreases b.len(),
{
    if b.len() == 0 {
        assert(a + b =~= a);
        assert(show_records(a) + show_records(b) =~= show_records(a));
    } else {
        assert((a + b).drop_last() =~= a + b.drop_last());
        assert((a + b).last() == b.last());
        lemma_show_records_concat(a, b.drop_last());
        match show_record(b.last()) {
            Some(r) => {
                assert(show_records(a) + show_records(b.drop_last()).push(r)
                    =~= (show_records(a) + show_records(b.drop_last())).push(r));
            },
            None => {},
        }
    }
}

/// A movie's contribution: the records before it, its own record if any, the records after it.
pub proof fn lemma_movie_records_split(ms: Seq<Item>, i: int)
    requires
        0 <= i < ms.len(),
    ensures
        movie_records(ms) == movie_records(ms.take(i)) + movie_records(seq![ms[i]]) + movie_records(ms.skip(i + 1)),
{
    assert(ms =~= ms.take(i) + seq![ms[i]] + ms.skip(i + 1));
    lemma_movie_records_concat(ms.take(i) + seq![ms[i]], ms.skip(i + 1));
    lemma_movie_records_concat(ms.take(i), seq![ms[i]]);
    assert(seq![ms[i]].drop_last() =~= Seq::<Item>::empty());
}

/// A movie without a tmdb id, or one not watched, adds no record: the records are those of
/// the listing without it.
pub proof fn law_skipped_movie(ms: Seq<Item>, i: int)
    requires
        0 <= i < ms.len(),
        tmdb_of(ms[i]) is None || !played(ms[i]),
    ensures
        movie_records(ms) == movie_records(ms.remove(i)),
{
    lemma_movie_records_split(ms, i);
    assert(seq![ms[i]].drop_last() =~= Seq::<Item>::empty());
    reveal_with_fuel(movie_records, 2);
    assert(movie_records(seq![ms[i]]) =~= Seq::<ItemView>::empty());
    assert(ms.remove(i) =~= ms.take(i) + ms.skip(i + 1));
    lemma_movie_records_concat(ms.take(i), ms.skip(i + 1));
    assert(movie_records(ms.take(i)) + Seq::<ItemView>::empty() =~= movie_records(ms.take(i)));
}

/// A watched movie with a tmdb id adds exactly one record in its place, whose identifier is
/// the tmdb id, whose source id is the movie's id, and whose one entry has no ordinals.
pub proof fn law_watched_movie(ms: Seq<Item>, i: int)
    requires
        0 <= i < ms.len(),
        tmdb_of(ms[i]) is Some,
        played(ms[i]),
    ensures
        movie_records(ms) == movie_records(ms.take(i)) + seq![
            record("Movie"@, tmdb_of(ms[i])->Some_0, ms[i].id@,
                seq![SeenHistory { show_episode_number: None, show_season_number: None }])
        ] + movie_records(ms.skip(i + 1)),
{
    lemma_movie_records_split(ms, i);
    assert(seq![ms[i]].drop_last() =~= Seq::<Item>::empty());
    assert(seq![ms[i]].last() == ms[i]);
    reveal_with_fuel(movie_records, 2);
    assert(movie_records(seq![ms[i]]) =~= Seq::<ItemView>::empty().push(movie_record(ms[i])->Some_0));
}

/// A show without a tmdb id adds no record, whatever was listed under it.
pub proof fn law_skipped_show(ss: Seq<FetchedShow>, i: int)
    requires
        0 <= i < ss.len(),
        tmdb_of(ss[i].show) is None,
    ensures
        show_records(ss) == show_records(ss.remove(i)),
{
    assert(ss =~= ss.take(i) + seq![ss[i]] + ss.skip(i + 1));
    lemma_show_records_concat(ss.take(i) + seq![ss[i]], ss.skip(i + 1));
    lemma_show_records_concat(ss.take(i), seq![ss[i]]);
    assert(seq![ss[i]].drop_last() =~= Seq::<FetchedShow>::empty());
    reveal_with_fuel(show_records, 2);
    assert(show_records(seq![ss[i]]) =~= Seq::<ItemView>::empty());
    assert(ss.remove(i) =~= ss.take(i) + ss.skip(i + 1));
    lemma_show_records_concat(ss.take(i), ss.skip(i + 1));
    assert(show_records(ss.take(i)) + Seq::<ItemView>::empty() =~= show_records(ss.take(i)));
}

/// A show with a tmdb id always has a record, even with no watched episodes: its identifier
/// is the tmdb id and its source id the show's id, both unchanged.
pub proof fn law_show_with_tmdb(s: FetchedShow)
    requires
        tmdb_of(s.show) is Some,
    ensures
        show_record(s) is Some,
        show_record(s)->Some_0.identifier == tmdb_of(s.show)->Some_0,
        show_record(s)->Some_0.source_id == s.show.id@,
        show_record(s)->Some_0.lot == "Show"@,
{
}

/// A watched, numbered episode of a season numbered `n` has its entry among the season's entries.
pub proof fn lemma_season_entries_contains(n: u32, eps: Seq<Item>, k: int)
    requires
        0 <= k < eps.len(),
        played(eps[k]),
        eps[k].index_number is Some,
    ensures
        season_entries(n, eps).contains(
            SeenHistory { show_episode_number: eps[k].index_number, show_season_number: Some(n) },
        ),
    decreases eps.len(),
{
    let h = SeenHistory { show_episode_number: eps[k].index_number, show_season_number: Some(n) };
    let rest = season_entries(n, eps.drop_last());
    if k == eps.len() - 1 {
        assert(season_entries(n, eps) == rest.push(h));
        assert(rest.push(h)[rest.len() as int] == h);
    } else {
        assert(eps.drop_last()[k] == eps[k]);
        lemma_season_entries_contains(n, eps.drop_last(), k);
        let j = choose|j: int| 0 <= j < rest.len() && rest[j] == h;
        if season_entries(n, eps) != rest {
            let e = season_entries(n, eps).last();
            assert(season_entries(n, eps) == rest.push(e));
            assert(rest.push(e)[j] == h);
        }
    }
}

/// An entry of one season is among the entries of the show.
pub proof fn lemma_show_history_contains(seasons: Seq<FetchedSeason>, j: int, h: SeenHistory)
    requires
        0 <= j < seasons.len(),
        season_history(seasons[j]).contains(h),
    ensures
        show_history(seasons).contains(h),
    decreases seasons.len(),
{
    let rest = show_history(seasons.drop_last());
    let last = season_history(seasons.last());
    assert(show_history(seasons) == rest + last);
    if j == seasons.len() - 1 {
        let k = choose|k: int| 0 <= k < last.len() && last[k] == h;
        assert((rest + last)[rest.len() + k] == h);
    } else {
        assert(seasons.drop_last()[j] == seasons[j]);
        lemma_show_history_contains(seasons.drop_last(), j, h);
        let k = choose|k: int| 0 <= k < rest.len() && rest[k] == h;
        assert((rest + last)[k] == h);
    }
}

/// Every watched, numbered episode of a numbered season of a show with a tmdb id appears in
/// the show's record as an entry pairing the season's number with the episode's number.
pub proof fn law_watched_episode(s: FetchedShow, j: int, k: int)
    requires
        tmdb_of(s.show) is Some,
        0 <= j < s.seasons@.len(),
        s.seasons@[j].season.index_number is Some,
        0 <= k < s.seasons@[j].episodes@.len(),
        played(s.seasons@[j].episodes@[k]),
        s.seasons@[j].episodes@[k].index_number is Some,
    ensures
        show_record(s) is Some,
        show_record(s)->Some_0.seen_history.contains(SeenHistory {
            show_episode_number: s.seasons@[j].episodes@[k].index_number,
            show_season_number: s.seasons@[j].season.index_number,
        }),
{
    let n = s.seasons@[j].season.index_number->Some_0;
    lemma_season_entries_contains(n, s.seasons@[j].episodes@, k);
    lemma_show_history_contains(s.seasons@, j, SeenHistory {
        show_episode_number: s.seasons@[j].episodes@[k].index_number,
        show_season_number: Some(n),
    });
}

/// Every movie record carries, unchanged, the id and the tmdb id of a movie of the listing.
pub proof fn law_movie_record_origin(ms: Seq<Item>, k: int)
    requires
        0 <= k < movie_records(ms).len(),
    ensures
        exists|j: int| #![auto]
            0 <= j < ms.len() && movie_records(ms)[k].source_id == ms[j].id@
                && tmdb_of(ms[j]) == Some(movie_records(ms)[k].identifier),
    decreases ms.len(),
{
    let rest = movie_records(ms.drop_last());
    if k < rest.len() {
        law_movie_record_origin(ms.drop_last(), k);
        let j = choose|j: int| #![auto]
            0 <= j < ms.drop_last().len() && rest[k].source_id == ms.drop_last()[j].id@
                && tmdb_of(ms.drop_last()[j]) == Some(rest[k].identifier);
        assert(movie_records(ms)[k] == rest[k]);
        assert(ms[j] == ms.drop_last()[j]);
    } else {
        let j = ms.len() - 1;
        assert(ms[j] == ms.last());
    }
}

/// Every show record carries, unchanged, the id and the tmdb id of a show of the listing.
pub proof fn law_show_record_origin(ss: Seq<FetchedShow>, k: int)
    requires
        0 <= k < show_records(ss).len(),
    ensures
        exists|j: int| #![auto]
            0 <= j < ss.len() && show_records(ss)[k].source_id == ss[j].show.id@
                && tmdb_of(ss[j].show) == Some(show_records(ss)[k].identifier),
    decreases ss.len(),
{
    let rest = show_records(ss.drop_last());
    if k < rest.len() {
        law_show_record_origin(ss.drop_last(), k);
        let j = choose|j: int| #![auto]
            0 <= j < ss.drop_last().len() && rest[k].source_id == ss.drop_last()[j].show.id@
                && tmdb_of(ss.drop_last()[j].show) == Some(rest[k].identifier);
        assert(show_records(ss)[k] == rest[k]);
        assert(ss[j] == ss.drop_last()[j]);
    } else {
        let j = ss.len() - 1;
        assert(ss[j] == ss.last());
    }
}

/// A season with no watched, numbered episode has no entries.
pub proof fn lemma_season_entries_empty(n: u32, eps: Seq<Item>)
    requires
        forall|k: int| 0 <= k < eps.len() ==> !(played(#[trigger] eps[k]) && eps[k].index_number is Some),
    ensures
        season_entries(n, eps) == Seq::<SeenHistory>::empty(),
    decreases eps.len(),
{
    if eps.len() > 0 {
        assert forall|k: int| 0 <= k < eps.drop_last().len() implies
            !(played(#[trigger] eps.drop_last()[k]) && eps.drop_last()[k].index_number is Some) by {
            assert(eps.drop_last()[k] == eps[k]);
        }
        lemma_season_entries_empty(n, eps.drop_last());
        assert(eps.last() == eps[eps.len() - 1]);
    }
}

/// A show with a tmdb id none of whose numbered seasons has a watched, numbered episode still
/// has a record, with no entries.
pub proof fn law_show_without_watched_episodes(s: FetchedShow)
    requires
        tmdb_of(s.show) is Some,
        forall|j: int, k: int| 0 <= j < s.seasons@.len() && s.seasons@[j].season.index_number is Some
            && 0 <= k < s.seasons@[j].episodes@.len() ==>
            !(played(#[trigger] s.seasons@[j].episodes@[k]) && s.seasons@[j].episodes@[k].index_number is Some),
    ensures
        show_record(s) is Some,
        show_record(s)->Some_0.seen_history == Seq::<SeenHistory>::empty(),
{
    lemma_show_history_empty(s.seasons@);
}

/// The history of seasons none of which has an entry is empty.
pub proof fn lemma_show_history_empty(seasons: Seq<FetchedSeason>)
    requires
        forall|j: int, k: int| 0 <= j < seasons.len() && seasons[j].season.index_number is Some
            && 0 <= k < seasons[j].episodes@.len() ==>
            !(played(#[trigger] seasons[j].episodes@[k]) && seasons[j].episodes@[k].index_number is Some),
    ensures
        show_history(seasons) == Seq::<SeenHistory>::empty(),
    decreases seasons.len(),
{
    if seasons.len() > 0 {
        let last = seasons.last();
        assert(last == seasons[seasons.len() - 1]);
        assert forall|j: int, k: int| 0 <= j < seasons.drop_last().len()
            && seasons.drop_last()[j].season.index_number is Some
            && 0 <= k < seasons.drop_last()[j].episodes@.len() implies
            !(played(#[trigger] seasons.drop_last()[j].episodes@[k])
                && seasons.drop_last()[j].episodes@[k].index_number is Some) by {
            assert(seasons.drop_last()[j] == seasons[j]);
        }
        lemma_show_history_empty(seasons.drop_last());
        match last.season.index_number {
            Some(n) => {
                assert forall|k: int| 0 <= k < last.episodes@.len() implies
                    !(played(#[trigger] last.episodes@[k]) && last.episodes@[k].index_number is Some) by {
                    assert(seasons[seasons.len() - 1].episodes@[k] == last.episodes@[k]);
                }
                lemma_season_entries_empty(n, last.episodes@);
            },
            None => {},
        }
        assert(Seq::<SeenHistory>::empty() + season_history(last) =~= Seq::<SeenHistory>::empty());
    }
}

} // verus!
