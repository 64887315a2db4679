//! Records of the tracking service's import format.
use vstd::prelude::*;

verus! {

#[derive(Clone, Copy, PartialEq, Eq, Structural)]
pub struct SeenHistory {
    pub show_episode_number: Option<u32>,
    pub show_season_number: Option<u32>,
}

pub struct Item {
    pub collections: Vec<String>,
    pub identifier: String,
    pub lot: String,
    pub reviews: Vec<String>,
    pub seen_history: Vec<SeenHistory>,
    pub source: String,
    pub source_id: String,
}

/// What a record holds, as plain sequences.
pub struct ItemView {
    pub collections: Seq<Seq<char>>,
    pub identifier: Seq<char>,
    pub lot: Seq<char>,
    pub reviews: Seq<Seq<char>>,
    pub seen_history: Seq<SeenHistory>,
    pub source: Seq<char>,
    pub source_id: Seq<char>,
}

impl View for Item {
    type V = ItemView;

    open spec fn view(&self) -> ItemView {
        ItemView {
            collections: self.collections@.map_values(|s: String| s@),
            identifier: self.identifier@,
            lot: self.lot@,
            reviews: self.reviews@.map_values(|s: String| s@),
            seen_history: self.seen_history@,
            source: self.source@,
            source_id: self.source_id@,
        }
    }
}

/// The record for one title: no collections, no reviews, tmdb as its source.
pub open spec fn record(lot: Seq<char>, tmdb: Seq<char>, source_id: Seq<char>, history: Seq<SeenHistory>) -> ItemView {
    ItemView {
        collections: Seq::empty(),
        identifier: tmdb,
        lot,
        reviews: Seq::empty(),
        seen_history: history,
        source: "Tmdb"@,
        source_id,
    }
}

/// The views of a list of records.
pub open spec fn views(items: Seq<Item>) -> Seq<ItemView> {
    items.map_values(|i: Item| i@)
}

impl Item {
    /// Builds the record for a title of the given kind.
    pub fn new(lot: &str, tmdb: String, source_id: String, seen_history: Vec<SeenHistory>) -> (r: Item)
        ensures
            r@ == record(lot@, tmdb@, source_id@, seen_history@),
    {
        let r = Item {
            collections: Vec::new(),
            identifier: tmdb,
            lot: String::from_str(lot),
            reviews: Vec::new(),
            seen_history,
            source: String::from_str("Tmdb"),
            source_id,
        };
        assert(r@.collections =~= Seq::<Seq<char>>::empty());
        assert(r@.reviews =~= Seq::<Seq<char>>::empty());
        r
    }
}

} // verus!
