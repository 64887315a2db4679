//! Records of the media server's item listing.
use vstd::prelude::*;

verus! {

pub struct ProviderIds {
    pub tvdb: Option<String>,
    pub imdb: Option<String>,
    pub tmdb: Option<String>,
}

pub struct UserData {
    pub played: bool,
}

pub struct Items {
    pub items: Vec<Item>,
}

pub struct Item {
    pub name: String,
    pub id: String,
    pub provider_ids: Option<ProviderIds>,
    pub index_number: Option<u32>,
    pub user_data: Option<UserData>,
}

/// The tmdb id of an item, where it has one.
pub open spec fn tmdb_of(item: Item) -> Option<Seq<char>> {
    match item.provider_ids {
        Some(p) => match p.tmdb {
            Some(t) => Some(t@),
            None => None,
        },
        None => None,
    }
}

/// Whether the item's playback state says it was watched.
pub open spec fn played(item: Item) -> bool {
    match item.user_data {
        Some(u) => u.played,
        None => false,
    }
}

impl Item {
    /// The tmdb id of this item, if it has one.
    pub fn tmdb_id(&self) -> (r: Option<String>)
        ensures
            match r {
                Some(t) => tmdb_of(*self) == Some(t@),
                None => tmdb_of(*self) is None,
            },
    {
        match &self.provider_ids {
            Some(p) => match &p.tmdb {
                Some(t) => Some(t.clone()),
                None => None,
            },
            None => None,
        }
    }

    /// Whether the item is marked as watched; an absent state counts as not watched.
    pub fn is_played(&self) -> (r: bool)
        ensures
            r == played(*self),
    {
        match &self.user_data {
            Some(u) => u.played,
            None => false,
        }
    }
}

/// Where the item listing of one user is queried.
pub struct Endpoint {
    pub base_url: String,
    pub user_id: String,
    pub tv_library_id: String,
}

impl Endpoint {
    /// The URL of the item listing: `{base_url}/Users/{user_id}/Items`.
    pub fn items_url(&self) -> (r: String)
        ensures
            r@ == self.base_url@ + "/Users/"@ + self.user_id@ + "/Items"@,
    {
        let r = self.base_url.clone();
        let r = r.concat("/Users/");
        let r = r.concat(self.user_id.as_str());
        r.concat("/Items")
    }

    /// The parent that a listing is scoped to: the given one, else the TV library.
    pub fn parent_scope(&self, parent_id: Option<&str>) -> (r: String)
        ensures
            r@ == match parent_id {
                Some(p) => p@,
                None => self.tv_library_id@,
            },
    {
        match parent_id {
            Some(p) => String::from_str(p),
            None => self.tv_library_id.clone(),
        }
    }
}

} // verus!
