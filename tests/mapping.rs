use jellyfin_ryot::export::{
    episode_history, lists_episodes, lists_seasons, parse_operation, ryot_movies, ryot_shows,
    FetchedSeason, FetchedShow, Operation,
};
use jellyfin_ryot::jellyfin::{Endpoint, Item, Items, ProviderIds, UserData};

fn item(id: &str, tmdb: Option<&str>, index: Option<u32>, played: Option<bool>) -> Item {
    Item {
        name: format!("name of {}", id),
        id: id.to_string(),
        provider_ids: Some(ProviderIds {
            tvdb: None,
            imdb: None,
            tmdb: tmdb.map(|t| t.to_string()),
        }),
        index_number: index,
        user_data: played.map(|p| UserData { played: p }),
    }
}

#[test]
fn watched_movie_gives_one_record() {
    let movies = Items { items: vec![item("m1", Some("500"), None, Some(true))] };
    let out = ryot_movies(&movies);
    assert_eq!(out.len(), 1);
    let r = &out[0];
    assert_eq!(r.identifier, "500");
    assert!(r.collections.is_empty());
    assert_eq!(r.lot, "Movie");
    assert!(r.reviews.is_empty());
    assert_eq!(r.seen_history.len(), 1);
    assert_eq!(r.seen_history[0].show_episode_number, None);
    assert_eq!(r.seen_history[0].show_season_number, None);
    assert_eq!(r.source, "Tmdb");
    assert_eq!(r.source_id, "m1");
}

#[test]
fn unwatched_or_unknown_movies_are_skipped() {
    let mut no_ids = item("m4", None, None, Some(true));
    no_ids.provider_ids = None;
    let movies = Items {
        items: vec![
            item("m1", Some("1"), None, Some(false)),
            item("m2", Some("2"), None, None),
            item("m3", None, None, Some(true)),
            no_ids,
            item("m5", Some("5"), None, Some(true)),
        ],
    };
    let out = ryot_movies(&movies);
    assert_eq!(out.len(), 1);
    assert_eq!(out[0].source_id, "m5");
    assert_eq!(out[0].identifier, "5");
}

#[test]
fn watched_episode_gives_entry() {
    let shows = vec![FetchedShow {
        show: item("s1", Some("10"), None, None),
        seasons: vec![FetchedSeason {
            season: item("se1", None, Some(1), None),
            episodes: vec![item("e1", None, Some(3), Some(true))],
        }],
    }];
    let out = ryot_shows(&shows);
    assert_eq!(out.len(), 1);
    assert_eq!(out[0].identifier, "10");
    assert_eq!(out[0].source_id, "s1");
    assert_eq!(out[0].lot, "Show");
    assert_eq!(out[0].source, "Tmdb");
    assert_eq!(out[0].seen_history.len(), 1);
    assert_eq!(out[0].seen_history[0].show_season_number, Some(1));
    assert_eq!(out[0].seen_history[0].show_episode_number, Some(3));
}

#[test]
fn show_without_watched_episodes_has_empty_history() {
    let shows = vec![
        FetchedShow {
            show: item("s1", Some("10"), None, None),
            seasons: vec![
                FetchedSeason {
                    season: item("se1", None, Some(1), None),
                    episodes: vec![
                        item("e1", None, Some(1), Some(false)),
                        item("e2", None, None, Some(true)),
                    ],
                },
                FetchedSeason {
                    season: item("se2", None, None, None),
                    episodes: vec![item("e3", None, Some(2), Some(true))],
                },
            ],
        },
        FetchedShow { show: item("s2", None, None, None), seasons: vec![] },
    ];
    let out = ryot_shows(&shows);
    assert_eq!(out.len(), 1);
    assert_eq!(out[0].source_id, "s1");
    assert!(out[0].seen_history.is_empty());
}

#[test]
fn episode_entries_keep_order() {
    let eps = vec![
        item("e1", None, Some(1), Some(true)),
        item("e2", None, Some(2), Some(false)),
        item("e3", None, Some(7), Some(true)),
    ];
    let h = episode_history(4, &eps);
    assert_eq!(h.len(), 2);
    assert_eq!(h[0].show_episode_number, Some(1));
    assert_eq!(h[1].show_episode_number, Some(7));
    assert_eq!(h[1].show_season_number, Some(4));
}

#[test]
fn fetch_decisions() {
    assert!(lists_seasons(&item("s1", Some("10"), None, None)));
    assert!(!lists_seasons(&item("s2", None, None, None)));
    assert!(lists_episodes(&item("se1", None, Some(0), None)));
    assert!(!lists_episodes(&item("se2", None, None, None)));
}

#[test]
fn operation_names() {
    assert!(parse_operation("shows") == Some(Operation::Shows));
    assert!(parse_operation("movies") == Some(Operation::Movies));
    assert!(parse_operation("foo").is_none());
    assert!(parse_operation("").is_none());
}

#[test]
fn request_url_and_scope() {
    let e = Endpoint {
        base_url: "http://host:8096".to_string(),
        user_id: "u1".to_string(),
        tv_library_id: "tv".to_string(),
    };
    assert_eq!(e.items_url(), "http://host:8096/Users/u1/Items");
    assert_eq!(e.parent_scope(None), "tv");
    assert_eq!(e.parent_scope(Some("p9")), "p9");
}
