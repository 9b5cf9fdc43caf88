use std::cmp::Ordering;

use kartof_play::caching::cache_anime::{
    cache_anime_step, compare, episode_from_request, episode_number, find_animegg_match,
    gogo_episode, gogo_episodes, keep_last, merge_animegg_details, merge_animegg_episodes,
    merge_mal, merge_schedule, missing_episode_count, new_anime_record, new_anime_result,
    new_episode_requests, refresh_animegg_id, refresh_episode_count, refresh_from_mal,
    refresh_from_schedule, sort_episodes, CacheStep, EpisodeRequest,
};
use kartof_play::caching::cache_home::{
    date_string, details_lookup_ids, get_popular, get_recent, home_due,
    home_on_cooldown, release_ids, release_lookup_ids,
};
use kartof_play::utils::types::{Anime, AnimeDetails, AnimeRelease, Episode};

fn details_with(episodes: u32, id: &str) -> AnimeDetails {
    let mut d = AnimeDetails::new();
    d.episodes = episodes;
    d.id = Some(id.to_string());
    d
}

fn episode(num: &str) -> Episode {
    let mut e = Episode::new();
    e.num = num.to_string();
    e
}

#[test]
fn episode_numbers_compare_by_value_then_as_text() {
    assert_eq!(compare("2", "10"), Ordering::Less);
    assert_eq!(compare("10", "2"), Ordering::Greater);
    assert_eq!(compare("7", "7"), Ordering::Equal);
    assert_eq!(compare("10", "9a"), Ordering::Less);
    assert_eq!(compare("b", "a"), Ordering::Greater);
    assert_eq!(compare("", "0"), Ordering::Less);
}

#[test]
fn comparing_is_antisymmetric_on_examples() {
    for (a, b) in [("1", "2"), ("x", "y"), ("3", "3a"), ("", "")] {
        assert_eq!(compare(a, b), compare(b, a).reverse());
    }
}

#[test]
fn sorting_orders_episodes_and_keeps_them_all() {
    let mut eps = vec![episode("10"), episode("2"), episode("1"), episode("2")];
    sort_episodes(&mut eps);
    let nums: Vec<String> = eps.iter().map(|e| e.num.clone()).collect();
    assert_eq!(nums, vec!["1", "2", "2", "10"]);
    let mut empty: Vec<Episode> = Vec::new();
    sort_episodes(&mut empty);
    assert!(empty.is_empty());
}

#[test]
fn episode_numbers_come_after_the_last_marker() {
    assert_eq!(episode_number("/naruto-episode-12"), "12");
    assert_eq!(episode_number("a-episode-b-episode-3"), "3");
    assert_eq!(episode_number("plain"), "plain");
}

#[test]
fn first_source_episodes_skip_empty_paths() {
    let paths = vec!["/x-episode-1".to_string(), "".to_string(), "/x-episode-2".to_string()];
    let urls = vec!["u1".to_string(), "ignored".to_string(), "".to_string()];
    let eps = gogo_episodes(&paths, &urls);
    assert_eq!(eps.len(), 2);
    assert_eq!(eps[0].num, "1");
    assert_eq!(eps[0].gogoanime_url, "u1");
    assert_eq!(eps[1].num, "2");
    assert_eq!(eps[1].gogoanime_url, "/error");
    assert_eq!(eps[1].animegg_url, "/error");
    let e = gogo_episode("/y-episode-5", "s".to_string());
    assert_eq!((e.num.as_str(), e.gogoanime_url.as_str()), ("5", "s"));
}

#[test]
fn new_record_takes_the_first_source_details() {
    let mut gogo = AnimeDetails::new();
    gogo.title = Some("Naruto".to_string());
    let a = new_anime_record("naruto", 1722186578987, gogo, vec![episode("1"), episode("2")]);
    assert_eq!(a.id, "1722186578987");
    assert_eq!(a.gogo_id, "naruto");
    assert_eq!(a.title, "Naruto");
    assert_eq!(a.details.id, Some("naruto".to_string()));
    assert_eq!(a.details.episodes, 2);
    assert_eq!(a.episodes.len(), 2);
}

#[test]
fn second_source_match_needs_a_close_episode_count() {
    let results = vec![details_with(50, "far"), details_with(22, "close"), details_with(20, "also")];
    assert_eq!(find_animegg_match(&results, 20), Some(1));
    assert_eq!(find_animegg_match(&results, 0), None);
    assert_eq!(find_animegg_match(&Vec::new(), 12), None);
}

#[test]
fn second_source_details_are_merged() {
    let mut a = Anime::new();
    a.details.episodes = 10;
    let mut found = details_with(13, "egg");
    found.other_names = vec!["Other".to_string()];
    found.released = Some("2002".to_string());
    merge_animegg_details(&mut a, found);
    assert_eq!(a.animegg_id, "egg");
    assert_eq!(a.details.episodes, 13);
    assert_eq!(a.details.other_names, vec!["Other".to_string()]);
    assert_eq!(a.details.released, Some("2002".to_string()));
    let mut b = Anime::new();
    b.details.episodes = 10;
    merge_animegg_details(&mut b, details_with(15, "egg"));
    assert_eq!(b.details.episodes, 10);
}

#[test]
fn second_source_streams_fill_and_extend_the_list() {
    let mut eps = vec![episode("1")];
    let ids = vec!["e1".to_string(), "e2".to_string()];
    let urls = vec!["u1".to_string(), "u2".to_string()];
    merge_animegg_episodes(&mut eps, &ids, &urls);
    assert_eq!(eps.len(), 2);
    assert_eq!((eps[0].num.as_str(), eps[0].animegg_url.as_str()), ("1", "u1"));
    assert_eq!((eps[1].num.as_str(), eps[1].animegg_url.as_str()), ("e2", "u2"));
    assert_eq!(eps[1].gogoanime_url, "/error");
}

#[test]
fn catalogue_source_fills_gaps_only() {
    let mut a = Anime::new();
    a.details.cover_url = "mine.png".to_string();
    let mut first = details_with(0, "5114");
    first.rating = "9.1".to_string();
    let mut d = AnimeDetails::new();
    d.released = Some("Spring 2009".to_string());
    d.cover_url = "theirs.png".to_string();
    d.title = Some("FMA".to_string());
    merge_mal(&mut a, first, Some(d));
    assert_eq!(a.mal_id, "5114");
    assert_eq!(a.details.rating, "9.1");
    assert_eq!(a.details.released, Some("Spring 2009".to_string()));
    assert_eq!(a.details.cover_url, "mine.png");
    assert_eq!(a.details.title, Some("FMA".to_string()));
    assert_eq!(a.title, "FMA");
}

#[test]
fn schedule_source_sets_the_next_episode() {
    let mut a = Anime::new();
    let mut first = details_with(0, "oshi");
    first.new_ep = 1722180600;
    merge_schedule(&mut a, first);
    assert_eq!(a.schedule_id, "oshi");
    assert_eq!(a.details.new_ep, 1722180600);
}

#[test]
fn untitled_series_are_not_stored() {
    let a = Anime::new();
    assert_eq!(new_anime_result(a.clone(), "Naruto", 99).unwrap().last_updated, 99);
    let e = new_anime_result(a, "", 99).unwrap_err();
    assert!(e.is_error);
    assert_eq!(e.reason, "No data collected");
}

#[test]
fn caching_step_depends_on_age() {
    assert!(matches!(cache_anime_step(None, 1000, 300), CacheStep::Create));
    assert!(matches!(cache_anime_step(Some(600), 1000, 300), CacheStep::Update));
    match cache_anime_step(Some(700), 1000, 300) {
        CacheStep::Cooldown(c) => {
            assert!(c.is_error);
            assert_eq!(c.reason, "On cooldown.");
        },
        _ => panic!("expected a cooldown"),
    }
}

#[test]
fn refresh_keeps_known_ids() {
    let mut cur = Anime::new();
    cur.mal_id = "1".to_string();
    let mut det = AnimeDetails::new();
    let mut by_id = AnimeDetails::new();
    by_id.rating = "8.0".to_string();
    refresh_from_mal(&mut cur, &mut det, Some(by_id), vec![details_with(0, "other")]);
    assert_eq!(cur.mal_id, "1");
    assert_eq!(det.rating, "8.0");

    let mut cur = Anime::new();
    let mut det = AnimeDetails::new();
    let mut found = details_with(0, "2");
    found.rating = "7.5".to_string();
    refresh_from_mal(&mut cur, &mut det, None, vec![found]);
    assert_eq!(cur.mal_id, "2");
    assert_eq!(det.rating, "7.5");

    let mut cur = Anime::new();
    let mut det = AnimeDetails::new();
    let mut found = details_with(0, "s");
    found.new_ep = 5;
    refresh_from_schedule(&mut cur, &mut det, None, vec![found]);
    assert_eq!(cur.schedule_id, "s");
    assert_eq!(det.new_ep, 5);

    let mut cur = Anime::new();
    refresh_animegg_id(&mut cur, 20, vec![details_with(40, "no"), details_with(19, "yes")]);
    assert_eq!(cur.animegg_id, "yes");
    let mut known = Anime::new();
    known.animegg_id = "kept".to_string();
    refresh_animegg_id(&mut known, 20, vec![details_with(19, "yes")]);
    assert_eq!(known.animegg_id, "kept");

    let mut det = AnimeDetails::new();
    refresh_episode_count(&mut det, Some(details_with(30, "g")));
    assert_eq!(det.episodes, 30);
    refresh_episode_count(&mut det, None);
    assert_eq!(det.episodes, 30);
}

#[test]
fn missing_episodes_are_counted_and_listed() {
    assert_eq!(missing_episode_count(10, 12), Some(2));
    assert_eq!(missing_episode_count(12, 12), None);
    let list: Vec<String> = vec!["a".into(), "b".into(), "c".into()];
    assert_eq!(keep_last(list.clone(), 2), vec!["b".to_string(), "c".to_string()]);
    assert_eq!(keep_last(list.clone(), 5), list);
}

#[test]
fn new_episode_requests_follow_the_longer_list() {
    let gogo = vec!["/x-episode-11".to_string(), "/x-episode-12".to_string(), "/x-episode-13".to_string()];
    let egg = vec!["x-episode-11".to_string()];
    let reqs = new_episode_requests(&gogo, &egg);
    assert_eq!(reqs.len(), 2);
    assert_eq!(reqs[0].num, "11");
    assert_eq!(reqs[0].animegg_path, Some("x-episode-11".to_string()));
    assert_eq!(reqs[1].num, "12");
    assert_eq!(reqs[1].animegg_path, None);
    let single = new_episode_requests(&Vec::new(), &vec!["y-episode-4".to_string()]);
    assert_eq!(single.len(), 1);
    assert_eq!(single[0].num, "4");
    assert_eq!(single[0].gogo_path, None);
    let req = EpisodeRequest { num: "3".to_string(), gogo_path: None, animegg_path: None };
    let e = episode_from_request(req, Some("g".to_string()), None);
    assert_eq!((e.num.as_str(), e.gogoanime_url.as_str(), e.animegg_url.as_str()), ("3", "g", ""));
}

fn release(id: Option<&str>) -> AnimeRelease {
    let mut r = AnimeRelease::new();
    r.id = id.map(|s| s.to_string());
    r.episode_num = Some("7".to_string());
    r
}

#[test]
fn home_keys_and_timing() {
    assert_eq!(date_string(5, 3, 2024), "5:3:2024");
    assert!(home_on_cooldown(Some(900), 1000, 300));
    assert!(!home_on_cooldown(Some(600), 1000, 300));
    assert!(!home_on_cooldown(None, 1000, 300));
    assert!(home_due(1300, 1000, 300));
    assert!(!home_due(1299, 1000, 300));
}

#[test]
fn lookup_ids_follow_the_entries() {
    assert_eq!(release_lookup_ids(&vec![release(None), release(Some("x"))]), vec!["".to_string(), "x".to_string()]);
    assert_eq!(details_lookup_ids(&vec![details_with(0, "d")]), vec!["d".to_string()]);
    assert_eq!(release_ids(&vec![release(None), release(Some("x"))]), vec!["x".to_string()]);
}

#[test]
fn home_recent_keeps_stored_series() {
    let mut stored = Anime::new();
    stored.id = "42".to_string();
    stored.title = "Naruto".to_string();
    stored.details.cover_url = "c.png".to_string();
    let recent = vec![release(Some("naruto")), release(Some("unknown"))];
    let (res, list) = get_recent(&recent, &vec![Some(stored), None]);
    assert!(!res.is_error);
    assert_eq!(res.reason, "No errors");
    assert_eq!(list.len(), 1);
    assert_eq!(list[0].id, Some("42".to_string()));
    assert_eq!(list[0].title, Some("Naruto".to_string()));
    assert_eq!(list[0].cover_url, "c.png");
    assert_eq!(list[0].episode_num, Some("7".to_string()));
    assert!(list[0].is_out);
    let (res, list) = get_recent(&Vec::new(), &Vec::new());
    assert!(res.is_error);
    assert_eq!(res.reason, "Empty sources");
    assert!(list.is_empty());
}

#[test]
fn home_popular_joins_stored_series() {
    let mut stored = Anime::new();
    stored.id = "42".to_string();
    stored.title = "Naruto".to_string();
    stored.details.rating = "8.0".to_string();
    stored.details.description = "long".to_string();
    let mut p = details_with(0, "naruto");
    p.released = Some("2002".to_string());
    let (res, list) = get_popular(&vec![p, details_with(0, "x")], &vec![Some(stored), None]);
    assert!(!res.is_error);
    assert_eq!(list.len(), 1);
    assert_eq!(list[0].id, Some("42".to_string()));
    assert_eq!(list[0].title, Some("Naruto".to_string()));
    assert_eq!(list[0].rating, "8.0");
    assert_eq!(list[0].released, Some("2002".to_string()));
    assert_eq!(list[0].description, "");
    let (res, _) = get_popular(&Vec::new(), &Vec::new());
    assert_eq!(res.reason, "Empty sources");
}

#[test]
fn sorting_keeps_equal_episodes_in_order() {
    let mut first = episode("2");
    first.gogoanime_url = "a".to_string();
    let mut second = episode("2");
    second.gogoanime_url = "b".to_string();
    let mut eps = vec![first, episode("1"), second, episode("02")];
    sort_episodes(&mut eps);
    let got: Vec<(&str, &str)> = eps.iter().map(|e| (e.num.as_str(), e.gogoanime_url.as_str())).collect();
    assert_eq!(got, vec![("1", "/error"), ("2", "a"), ("2", "b"), ("02", "/error")]);
}

#[test]
fn compare_swapped_is_reversed() {
    let pairs = [("2", "10"), ("+3", "3"), ("b", "a"), ("9a", "10"), ("", "1"), ("4294967296", "1")];
    for (a, b) in pairs.iter() {
        assert_eq!(compare(a, b), compare(b, a).reverse());
    }
    assert_eq!(compare("+3", "3"), Ordering::Equal);
    assert_eq!(compare("4294967296", "5"), "4294967296".cmp("5"));
}
