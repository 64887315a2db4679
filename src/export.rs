//! The mapping from the media server's listings to the tracking service's records.
use vstd::prelude::*;
use crate::jellyfin::{self, Item, Items, played, tmdb_of};
use crate::ryot::{self, record, views, ItemView, SeenHistory};

verus! {

/// A season together with the episodes listed under it.
pub struct FetchedSeason {
    pub season: Item,
    pub episodes: Vec<Item>,
}

/// A show together with the seasons listed under it.
pub struct FetchedShow {
    pub show: Item,
    pub seasons: Vec<FetchedSeason>,
}

/// The operation chosen on the command line.
#[derive(Clone, Copy, PartialEq, Eq, Structural)]
pub enum Operation {
    Shows,
    Movies,
}

/// Reads the operation's name: `shows` or `movies`, anything else is refused.
pub fn parse_operation(arg: &str) -> (r: Option<Operation>)
    ensures
        r == if arg@ == "shows"@ {
            Some(Operation::Shows)
        } else if arg@ == "movies"@ {
            Some(Operation::Movies)
        } else {
            None::<Operation>
        },
{
    let s = String::from_str(arg);
    let shows = String::from_str("shows");
    let movies = String::from_str("movies");
    if s == shows {
        Some(Operation::Shows)
    } else if s == movies {
        Some(Operation::Movies)
    } else {
        None
    }
}

/// The record for a movie: one entry without ordinals, where it has a tmdb id and was watched.
pub open spec fn movie_record(m: Item) -> Option<ItemView> {
    match tmdb_of(m) {
        Some(t) => if played(m) {
            Some(record("Movie"@, t, m.id@, seq![SeenHistory { show_episode_number: None, show_season_number: None }]))
        } else {
            None
        },
        None => None,
    }
}

/// The records for a movie listing, in its order.
pub open spec fn movie_records(ms: Seq<Item>) -> Seq<ItemView>
    decreases ms.len(),
{
    if ms.len() == 0 {
        Seq::empty()
    } else {
        let rest = movie_records(ms.drop_last());
        match movie_record(ms.last()) {
            Some(r) => rest.push(r),
            None => rest,
        }
    }
}

/// The entry for an episode of a numbered season: only a watched, numbered episode has one.
pub open spec fn episode_entry(season_number: u32, e: Item) -> Option<SeenHistory> {
    if played(e) && e.index_number is Some {
        Some(SeenHistory { show_episode_number: e.index_number, show_season_number: Some(season_number) })
    } else {
        None
    }
}

/// The entries for the episodes of a numbered season, in their order.
pub open spec fn season_entries(season_number: u32, eps: Seq<Item>) -> Seq<SeenHistory>
    decreases eps.len(),
{
    if eps.len() == 0 {
        Seq::empty()
    } else {
        let rest = season_entries(season_number, eps.drop_last());
        match episode_entry(season_number, eps.last()) {
            Some(h) => rest.push(h),
            None => rest,
        }
    }
}

/// The entries of one season: none for a season without a number.
pub open spec fn season_history(s: FetchedSeason) -> Seq<SeenHistory> {
    match s.season.index_number {
        Some(n) => season_entries(n, s.episodes@),
        None => Seq::empty(),
    }
}

/// The entries of a show, season after season.
pub open spec fn show_history(seasons: Seq<FetchedSeason>) -> Seq<SeenHistory>
    decreases seasons.len(),
{
    if seasons.len() == 0 {
        Seq::empty()
    } else {
        show_history(seasons.drop_last()) + season_history(seasons.last())
    }
}

/// The record for a show: every show with a tmdb id has one, with possibly no entries.
pub open spec fn show_record(s: FetchedShow) -> Option<ItemView> {
    match tmdb_of(s.show) {
        Some(t) => Some(record("Show"@, t, s.show.id@, show_history(s.seasons@))),
        None => None,
    }
}

/// The records for a show listing, in its order.
pub open spec fn show_records(ss: Seq<FetchedShow>) -> Seq<ItemView>
    decreases ss.len(),
{
    if ss.len() == 0 {
        Seq::empty()
    } else {
        let rest = show_records(ss.drop_last());
        match show_record(ss.last()) {
            Some(r) => rest.push(r),
            None => rest,
        }
    }
}

/// Whether the walk over the show library lists this show's seasons.
pub fn lists_seasons(show: &Item) -> (r: bool)
    ensures
        r == tmdb_of(*show) is Some,
{
    show.tmdb_id().is_some()
}

/// Whether the walk over the show library lists this season's episodes.
pub fn lists_episodes(season: &Item) -> (r: bool)
    ensures
        r == season.index_number is Some,
{
    season.index_number.is_some()
}

/// The records for the watched movies of a listing.
pub fn ryot_movies(movies: &Items) -> (r: Vec<ryot::Item>)
    ensures
        views(r@) == movie_records(movies.items@),
{
    let ms = &movies.items;
    let mut out: Vec<ryot::Item> = Vec::new();
    let mut i: usize = 0;
    while i < ms.len()
        invariant
            i <= ms@.len(),
            views(out@) == movie_records(ms@.take(i as int)),
        decreases ms@.len() - i,
    {
        let m = &ms[i];
        assert(ms@.take(i as int + 1).drop_last() =~= ms@.take(i as int));
        match m.tmdb_id() {
            Some(t) => {
                if m.is_played() {
                    let mut h: Vec<SeenHistory> = Vec::new();
                    h.push(SeenHistory { show_episode_number: None, show_season_number: None });
                    let item = ryot::Item::new("Movie", t, m.id.clone(), h);
                    out.push(item);
                    assert(views(out@) =~= views(out@.drop_last()).push(item@));
                }
            },
            None => {},
        }
        i = i + 1;
    }
    assert(ms@.take(ms@.len() as int) =~= ms@);
    out
}

/// The entries for the watched, numbered episodes of a season numbered `season_number`.
pub fn episode_history(season_number: u32, episodes: &Vec<Item>) -> (r: Vec<SeenHistory>)
    ensures
        r@ == season_entries(season_number, episodes@),
{
    let mut out: Vec<SeenHistory> = Vec::new();
    let mut i: usize = 0;
    while i < episodes.len()
        invariant
            i <= episodes@.len(),
            out@ == season_entries(season_number, episodes@.take(i as int)),
        decreases episodes@.len() - i,
    {
        let e = &episodes[i];
        assert(episodes@.take(i as int + 1).drop_last() =~= episodes@.take(i as int));
        if e.is_played() {
            match e.index_number {
                Some(n) => {
                    out.push(SeenHistory { show_episode_number: Some(n), show_season_number: Some(season_number) });
                },
                None => {},
            }
        }
        i = i + 1;
    }
    assert(episodes@.take(episodes@.len() as int) =~= episodes@);
    out
}

/// The record for a show, where it has a tmdb id.
pub fn show_item(show: &FetchedShow) -> (r: Option<ryot::Item>)
    ensures
        match r {
            Some(x) => show_record(*show) == Some(x@),
            None => show_record(*show) is None,
        },
{
    let t = match show.show.tmdb_id() {
        Some(t) => t,
        None => return None,
    };
    let ss = &show.seasons;
    let mut history: Vec<SeenHistory> = Vec::new();
    let mut i: usize = 0;
    while i < ss.len()
        invariant
            i <= ss@.len(),
            history@ == show_history(ss@.take(i as int)),
        decreases ss@.len() - i,
    {
        let s = &ss[i];
        assert(ss@.take(i as int + 1).drop_last() =~= ss@.take(i as int));
        match s.season.index_number {
            Some(n) => {
                let mut h = episode_history(n, &s.episodes);
                history.append(&mut h);
            },
            None => {
                assert(history@ + season_history(*s) =~= history@);
            },
        }
        i = i + 1;
    }
    assert(ss@.take(ss@.len() as int) =~= ss@);
    Some(ryot::Item::new("Show", t, show.show.id.clone(), history))
}

/// The records for the shows of a library, each with the seasons and episodes listed under it.
pub fn ryot_shows(shows: &Vec<FetchedShow>) -> (r: Vec<ryot::Item>)
    ensures
        views(r@) == show_records(shows@),
{
    let mut out: Vec<ryot::Item> = Vec::new();
    let mut i: usize = 0;
    while i < shows.len()
        invariant
            i <= shows@.len(),
            views(out@) == show_records(shows@.take(i as int)),
        decreases shows@.len() - i,
    {
        assert(shows@.take(i as int + 1).drop_last() =~= shows@.take(i as int));
        match show_item(&shows[i]) {
            Some(item) => {
                out.push(item);
                assert(views(out@) =~= views(out@.drop_last()).push(item@));
            },
            None => {},
        }
        i = i + 1;
    }
    assert(shows@.take(shows@.len() as int) =~= shows@);
    out
}

} // verus!
