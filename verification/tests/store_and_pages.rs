use std::time::Duration;

use kartof_play::routes::{gogo_episode_id, player_episode, player_step, watch_view, PlayerStep};
use kartof_play::utils::caching_info::CachingInfo;
use kartof_play::utils::http::{cooldown_wait, rate_limited};
use kartof_play::utils::images::{get_image, image_path, save_image};
use kartof_play::utils::mongodb::{
    anime_id_field, merge_search, new_stream_record, pick_anime, search_title, stream_write,
    update_anime, update_home, HomeWrite, StreamWrite,
};
use kartof_play::utils::settings::Settings;
use kartof_play::utils::types::{
    Anime, AnimeDetails, AnimeRelease, CacheResult, Home, IdType, StreamUrl, StreamUrlEpisode,
};
use kartof_play::utils::{generate_id, get_date_string, get_timestamp, id_from};

fn titled(title: &str) -> Anime {
    let mut a = Anime::new();
    a.title = title.to_string();
    a
}

#[test]
fn lookups_use_the_field_of_the_site() {
    assert_eq!(anime_id_field(&IdType::KartofPlay), "id");
    assert_eq!(anime_id_field(&IdType::AnimeGG), "animegg_id");
    assert_eq!(anime_id_field(&IdType::Gogoanime), "gogo_id");
    assert_eq!(anime_id_field(&IdType::AnimeSchedule), "schedule_id");
    assert_eq!(anime_id_field(&IdType::MAL), "mal_id");
}

#[test]
fn lookups_pick_dub_or_sub() {
    let found = vec![titled("Naruto (Dub)"), titled("Naruto")];
    assert_eq!(pick_anime(found.clone(), IdType::Gogoanime, false).unwrap().title, "Naruto");
    assert_eq!(pick_anime(found.clone(), IdType::Gogoanime, true).unwrap().title, "Naruto (Dub)");
    assert_eq!(pick_anime(found, IdType::KartofPlay, false).unwrap().title, "Naruto (Dub)");
    assert!(pick_anime(vec![titled("Naruto")], IdType::MAL, true).is_none());
    assert!(pick_anime(Vec::new(), IdType::KartofPlay, false).is_none());
}

#[test]
fn home_write_inserts_or_sets_non_empty_lists() {
    let mut h = Home::new();
    h.date = "1:1:2024".to_string();
    h.recent = vec![AnimeRelease::new()];
    match update_home(h.clone(), false, 77) {
        HomeWrite::Insert(doc) => {
            assert_eq!(doc.last_updated, 77);
            assert_eq!(doc.date, "1:1:2024");
            assert_eq!(doc.recent.len(), 1);
        },
        _ => panic!("expected an insert"),
    }
    match update_home(h, true, 78) {
        HomeWrite::Update { date, popular, recent, schedule, last_updated } => {
            assert_eq!(date, "1:1:2024");
            assert!(popular.is_none());
            assert_eq!(recent.unwrap().len(), 1);
            assert!(schedule.is_none());
            assert_eq!(last_updated, 78);
        },
        _ => panic!("expected an update"),
    }
}

#[test]
fn search_reads_plus_as_space_and_merges_without_duplicates() {
    assert_eq!(search_title("one+piece"), "one piece");
    let exact = vec![titled("One Piece")];
    let text = vec![titled("One Piece"), titled("One Piece Film"), titled("Piece"), titled("Extra")];
    let r = merge_search(exact, text, 3);
    let titles: Vec<&str> = r.iter().map(|a| a.title.as_str()).collect();
    assert_eq!(titles, vec!["One Piece", "One Piece Film", "Piece"]);
    let full = merge_search(vec![titled("a"), titled("b"), titled("c")], vec![titled("d")], 2);
    let titles: Vec<&str> = full.iter().map(|a| a.title.as_str()).collect();
    assert_eq!(titles, vec!["a", "b"]);
    let zero = merge_search(Vec::new(), vec![titled("x"), titled("y")], 0);
    assert_eq!(zero.len(), 1);
}

#[test]
fn stream_records_read_back_what_was_written() {
    let s = new_stream_record("42", 2, "https://v/2.m3u8", 3, 1000);
    assert_eq!(s.id, "42");
    assert_eq!(s.episodes.len(), 3);
    let e = s.get_ep_url(2).unwrap();
    assert_eq!(e.url, "https://v/2.m3u8");
    assert_eq!(e.saved_at, 1000);
    assert_eq!(s.get_ep_url(1).unwrap().url, "");
    assert!(s.get_ep_url(0).is_none());
    assert!(s.get_ep_url(4).is_none());
    let mut s = s;
    s.set_ep_url(3, "https://v/3.m3u8", 2000);
    assert_eq!(s.get_ep_url(3).unwrap().url, "https://v/3.m3u8");
    assert_eq!(s.get_ep_url(2).unwrap().url, "https://v/2.m3u8");
    let blank = StreamUrl::new_ep_count("x", 0);
    assert!(blank.episodes.is_empty());
}

#[test]
fn stream_addresses_expire() {
    let e = StreamUrlEpisode::new("u", 1000);
    assert!(!e.is_expired(1500, 600));
    assert!(!e.is_expired(1600, 600));
    assert!(e.is_expired(1601, 600));
}

#[test]
fn series_update_carries_the_given_fields() {
    let u = update_anime(Some(AnimeDetails::new()), None, Some("egg"), None, Some("s"), 55);
    assert!(u.details.is_some());
    assert!(u.episodes.is_none());
    assert_eq!(u.animegg_id, Some("egg".to_string()));
    assert_eq!(u.mal_id, None);
    assert_eq!(u.schedule_id, Some("s".to_string()));
    assert_eq!(u.last_updated, 55);
}

#[test]
fn watch_page_hides_source_ids() {
    let mut a = titled("Naruto");
    a.id = "42".to_string();
    a.gogo_id = "naruto".to_string();
    a.animegg_id = "egg".to_string();
    a.schedule_id = "s".to_string();
    a.mal_id = "20".to_string();
    a.details.movie_id = Some("7".to_string());
    a.details.id = Some("naruto".to_string());
    let v = watch_view(a);
    assert_eq!(v.gogo_id, "");
    assert_eq!(v.animegg_id, "");
    assert_eq!(v.schedule_id, "");
    assert_eq!(v.mal_id, "20");
    assert_eq!(v.id, "42");
    assert_eq!(v.details.movie_id, None);
    assert_eq!(v.details.id, None);
}

#[test]
fn player_serves_fresh_addresses_and_refreshes_others() {
    assert_eq!(player_episode("12"), 12);
    assert_eq!(player_episode("x"), 1);
    assert_eq!(player_episode(""), 1);
    assert_eq!(gogo_episode_id("naruto", "3"), "naruto-episode-3");
    assert!(matches!(player_step("", None, 0, 10), PlayerStep::Serve(u) if u.is_empty()));
    assert!(matches!(player_step("42", None, 0, 10), PlayerStep::Refresh));
    let fresh = StreamUrlEpisode::new("u", 100);
    assert!(matches!(player_step("42", Some(fresh.clone()), 105, 10), PlayerStep::Serve(u) if u == "u"));
    assert!(matches!(player_step("42", Some(fresh), 111, 10), PlayerStep::Refresh));
    let empty = StreamUrlEpisode::new("", 100);
    assert!(matches!(player_step("42", Some(empty), 100, 10), PlayerStep::Refresh));
}

#[test]
fn settings_default_and_stored() {
    let s = Settings::default();
    assert_eq!(s.ANIMESCHEDULE, "https://animeschedule.net/");
    assert_eq!(s.ANIMEGG, "https://www.animegg.org/");
    assert_eq!(s.CACHE_HOME_FREQUENCY, Duration::from_secs(300));
    assert_eq!(s.CACHE_ALL_ANIME_FREQUENCY, Duration::from_secs(604800));
    assert_eq!(s.CACHE_SLEEP, Duration::from_millis(100));
    assert_eq!(s.IMAGES_PATH, "./images");
    let mut stored = Settings::default();
    stored.REPORT_COUNT = 7;
    assert_eq!(Settings::init(Some(stored)).REPORT_COUNT, 7);
    assert_eq!(Settings::init(None).REPORT_COUNT, 100);
}

#[test]
fn caching_info_is_kept() {
    let stored = CachingInfo { last_all_anime_cache: 5, last_all_images_cache: 6 };
    let c = CachingInfo::init(Some(stored));
    assert_eq!(c.get_all_anime_time(), 5);
    assert_eq!(c.get_all_images_time(), 6);
    let before = get_timestamp();
    let fresh = CachingInfo::init(None);
    assert!(fresh.get_all_anime_time() >= before);
}

#[test]
fn images_are_found_by_id() {
    assert_eq!(image_path("./images", "42"), "./images/42.jpg");
    let i = get_image("42", Some(vec![1, 2, 3])).unwrap();
    assert_eq!(i.id, "42");
    assert_eq!(i.data, vec![1, 2, 3]);
    assert!(get_image("42", None).is_none());
    let r: CacheResult = save_image(true);
    assert!(r.is_error);
    assert_eq!(r.reason, "Image already exists!");
    let r = save_image(false);
    assert!(!r.is_error);
    assert_eq!(r.reason, "Saved image!");
}

#[test]
fn throttled_sites_are_recognised() {
    assert!(rate_limited("https://animeschedule.net/anime/x"));
    assert!(!rate_limited("https://animeschedule.net/"));
    assert!(rate_limited("https://www.animegg.org/series/x"));
    assert!(!rate_limited("https://www.animegg.org/releases"));
    assert!(!rate_limited("https://gogoanime3.co/"));
    assert_eq!(cooldown_wait(500, 2000), 1500);
    assert_eq!(cooldown_wait(2500, 2000), 0);
}

#[test]
fn clock_and_ids() {
    let key = get_date_string();
    let parts: Vec<&str> = key.split(':').collect();
    assert_eq!(parts.len(), 3);
    let day: u32 = parts[0].parse().unwrap();
    let month: u32 = parts[1].parse().unwrap();
    assert!((1..=31).contains(&day));
    assert!((1..=12).contains(&month));
    let now = get_timestamp();
    assert!(now > 1_600_000_000);
    let id = generate_id();
    assert!(id >= now * 1000);
    assert!(id < (now + 10) * 1000 + 999_999);
}

#[test]
fn stream_writes_set_the_url_or_insert() {
    let stored = new_stream_record("42", 1, "old", 2, 10);
    match stream_write(Some(stored.clone()), "42", 2, "new", 2, 20) {
        StreamWrite::SetUrl(i, u) => {
            assert_eq!(i, 1);
            assert_eq!(u, "new");
        },
        _ => panic!("expected a field update"),
    }
    match stream_write(Some(stored), "42", 5, "far", 2, 20) {
        StreamWrite::SetUrl(i, u) => {
            assert_eq!(i, 4);
            assert_eq!(u, "far");
        },
        _ => panic!("expected a field update"),
    }
    match stream_write(None, "7", 3, "u", 4, 30) {
        StreamWrite::Insert(s) => {
            assert_eq!(s.id, "7");
            assert_eq!(s.episodes.len(), 4);
            assert_eq!(s.get_ep_url(3).unwrap().url, "u");
        },
        _ => panic!("expected an insert"),
    }
}

#[test]
fn search_title_reads_plus_as_space_once_for_all() {
    let once = search_title("one+piece+ +x");
    assert_eq!(once, "one piece   x");
    assert_eq!(search_title(&once), once);
}

#[test]
fn ids_add_the_random_part_to_the_time() {
    assert_eq!(id_from(1722170000000, 42), 1722170000042);
    assert_eq!(id_from(-5, 3), -2);
    assert_eq!(id_from(i64::MAX - 1, 5), i64::MAX - 1);
    assert_eq!(id_from(i64::MAX - 10, 10), i64::MAX);
}

#[test]
fn caching_info_stamped_with_given_times() {
    let c = CachingInfo::stamped(11, 22);
    assert_eq!(c.get_all_anime_time(), 11);
    assert_eq!(c.get_all_images_time(), 22);
}

#[test]
fn throttled_requests_are_spaced_by_the_interval() {
    let interval: u64 = 2000;
    let last: u64 = 1000;
    for now in [1000u64, 1500, 2999, 3000, 4000] {
        let sent = now + cooldown_wait(now - last, interval);
        assert!(sent >= last + interval);
    }
    assert_eq!(1500 + cooldown_wait(500, interval), 3000);
}
