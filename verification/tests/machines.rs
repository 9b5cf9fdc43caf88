use kartof_play::caching::create::{Create, CreateAction, CreateStage};
use kartof_play::caching::home_build::{HomeAction, HomeBuild, HomeEvent, HomeSource, HomeStage};
use kartof_play::utils::types::{AnimeRelease, Home, IdType};
use kartof_play::caching::refresh::{Answer, Refresh, RefreshAction, RefreshStage, Sites, Source};
use kartof_play::utils::types::{Anime, AnimeDetails, Episode, ScraperError};

fn sites() -> Sites {
    Sites {
        gogo: "https://g/".to_string(),
        gogo_ajax: "https://a/".to_string(),
        animegg: "https://e/".to_string(),
        mal: "https://m/".to_string(),
        schedule: "https://s/".to_string(),
    }
}

fn err() -> ScraperError {
    ScraperError { reason: "Error Parsing page".to_string() }
}

fn found(id: &str, episodes: u32) -> AnimeDetails {
    let mut d = AnimeDetails::new();
    d.id = Some(id.to_string());
    d.episodes = episodes;
    d
}

fn episode(num: &str) -> Episode {
    let mut e = Episode::new();
    e.num = num.to_string();
    e
}

fn fetch_url(a: &RefreshAction) -> String {
    match a {
        RefreshAction::Fetch(_, u) => u.clone(),
        RefreshAction::Store => "store".to_string(),
        RefreshAction::Abort => "abort".to_string(),
    }
}

fn create_url(a: &CreateAction) -> String {
    match a {
        CreateAction::Fetch(_, u) => u.clone(),
        CreateAction::Finish => "finish".to_string(),
        CreateAction::Abort => "abort".to_string(),
    }
}

fn stored_series() -> Anime {
    let mut a = Anime::new();
    a.id = "42".to_string();
    a.title = "Naruto".to_string();
    a.gogo_id = "naruto".to_string();
    a.schedule_id = "s1".to_string();
    a.details.episodes = 2;
    a.details.movie_id = Some("77".to_string());
    a.episodes = vec![episode("1"), episode("2")];
    a
}

#[test]
fn refresh_walks_through_every_site_and_adds_missing_episodes() {
    let (mut r, a) = Refresh::start("42", stored_series(), sites());
    assert!(matches!(&a, RefreshAction::Fetch(Source::MalSearch, _)));
    assert_eq!(fetch_url(&a), "https://m/anime.php?cat=anime&q=Naruto");

    let mut mal = found("20", 0);
    mal.rating = "8.0".to_string();
    let a = r.step(Answer::Search(Ok(vec![mal])));
    assert!(matches!(&a, RefreshAction::Fetch(Source::ScheduleDetails(id), _) if id == "s1"));
    assert_eq!(fetch_url(&a), "https://s/anime/s1");

    let mut sched = AnimeDetails::new();
    sched.new_ep = 99;
    let a = r.step(Answer::Details(Ok(sched)));
    assert_eq!(fetch_url(&a), "https://e/search/?q=Naruto");

    let a = r.step(Answer::Search(Ok(vec![found("far", 40), found("egg", 2)])));
    assert_eq!(fetch_url(&a), "https://g/category/naruto");

    let a = r.step(Answer::Details(Ok(found("naruto", 4))));
    assert_eq!(fetch_url(&a), "https://a/load-list-episode?ep_start=0&ep_end=999999&id=77");
    assert_eq!(r.missing, 2);

    let gogo: Vec<String> = (1..=4).map(|n| format!("/naruto-episode-{}", n)).collect();
    let a = r.step(Answer::Episodes(gogo));
    assert_eq!(fetch_url(&a), "https://e/series/egg");

    let egg = vec!["naruto-episode-3".to_string(), "naruto-episode-4".to_string()];
    let a = r.step(Answer::Episodes(egg));
    assert_eq!(fetch_url(&a), "https://g//naruto-episode-3");

    let a = r.step(Answer::Stream(Ok("g3".to_string())));
    assert_eq!(fetch_url(&a), "https://e/naruto-episode-3");

    let a = r.step(Answer::Stream(Err(err())));
    assert!(matches!(a, RefreshAction::Store));
    assert_eq!(r.stage, RefreshStage::Done);
    assert_eq!(r.current.mal_id, "20");
    assert_eq!(r.current.animegg_id, "egg");
    assert_eq!(r.current.schedule_id, "s1");
    assert_eq!(r.details.rating, "8.0");
    assert_eq!(r.details.new_ep, 99);
    assert_eq!(r.details.episodes, 4);
    let nums: Vec<&str> = r.episodes.iter().map(|e| e.num.as_str()).collect();
    assert_eq!(nums, vec!["1", "2", "3"]);
    assert_eq!(r.episodes[2].gogoanime_url, "g3");
    assert_eq!(r.episodes[2].animegg_url, "");

    assert!(matches!(r.step(Answer::Episodes(Vec::new())), RefreshAction::Abort));
}

#[test]
fn refresh_refuses_answers_of_the_wrong_kind() {
    let (mut r, _) = Refresh::start("42", stored_series(), sites());
    assert!(matches!(r.step(Answer::Details(Err(err()))), RefreshAction::Abort));
    assert_eq!(r.stage, RefreshStage::Mal);
}

#[test]
fn refresh_without_new_episodes_stores_at_once() {
    let mut stored = stored_series();
    stored.mal_id = "20".to_string();
    stored.animegg_id = "egg".to_string();
    let (mut r, a) = Refresh::start("42", stored, sites());
    assert_eq!(fetch_url(&a), "https://m/anime/20");
    let a = r.step(Answer::Details(Err(err())));
    assert_eq!(fetch_url(&a), "https://s/anime/s1");
    let a = r.step(Answer::Details(Err(err())));
    assert_eq!(fetch_url(&a), "https://g/category/naruto");
    let a = r.step(Answer::Details(Err(err())));
    assert!(matches!(a, RefreshAction::Store));
    assert_eq!(r.episodes.len(), 2);
    assert_eq!(r.details.episodes, 2);
}

#[test]
fn refresh_with_no_episode_lists_cannot_go_on() {
    let mut stored = stored_series();
    stored.mal_id = "20".to_string();
    stored.animegg_id = "egg".to_string();
    let (mut r, _) = Refresh::start("42", stored, sites());
    r.step(Answer::Details(Err(err())));
    r.step(Answer::Details(Err(err())));
    r.step(Answer::Details(Ok(found("naruto", 5))));
    r.step(Answer::Episodes(Vec::new()));
    let a = r.step(Answer::Episodes(Vec::new()));
    assert!(matches!(a, RefreshAction::Abort));
    assert_eq!(r.stage, RefreshStage::Failed);
}

#[test]
fn gathering_a_new_series() {
    let (mut c, a) = Create::start("naruto", 42, sites());
    assert_eq!(create_url(&a), "https://g/category/naruto");

    let mut gogo = AnimeDetails::new();
    gogo.title = Some("Naruto".to_string());
    gogo.movie_id = Some("77".to_string());
    let a = c.step(Answer::Details(Ok(gogo)));
    assert_eq!(create_url(&a), "https://a/load-list-episode?ep_start=0&ep_end=999999&id=77");

    let paths = vec!["/naruto-episode-1".to_string(), "".to_string(), "/naruto-episode-2".to_string()];
    let a = c.step(Answer::Episodes(paths));
    assert_eq!(create_url(&a), "https://g//naruto-episode-1");
    let a = c.step(Answer::Stream(Ok("u1".to_string())));
    assert_eq!(create_url(&a), "https://g//naruto-episode-2");
    let a = c.step(Answer::Stream(Err(err())));
    assert_eq!(create_url(&a), "https://e/search/?q=Naruto");
    assert_eq!(c.record.details.episodes, 2);

    let a = c.step(Answer::Search(Ok(vec![found("egg", 2)])));
    assert_eq!(create_url(&a), "https://e/series/egg");
    let ids: Vec<String> = (1..=3).map(|n| format!("naruto-episode-{}", n)).collect();
    let a = c.step(Answer::Episodes(ids));
    assert_eq!(create_url(&a), "https://e/naruto-episode-1");
    let a = c.step(Answer::Stream(Ok("e1".to_string())));
    assert_eq!(create_url(&a), "https://e/naruto-episode-2");
    let a = c.step(Answer::Stream(Ok("e2".to_string())));
    assert_eq!(create_url(&a), "https://e/naruto-episode-3");
    let a = c.step(Answer::Stream(Ok("e3".to_string())));
    assert_eq!(create_url(&a), "https://m/anime.php?cat=anime&q=Naruto");

    let mut mal = found("20", 0);
    mal.rating = "8.1".to_string();
    let a = c.step(Answer::Search(Ok(vec![mal])));
    assert!(matches!(&a, CreateAction::Fetch(Source::MalDetails(id), _) if id == "20"));
    assert_eq!(create_url(&a), "https://m/anime/20");
    let a = c.step(Answer::Details(Err(err())));
    assert_eq!(create_url(&a), "https://s/shows?mt=all&st=search&q=Naruto");
    let mut sched = found("sn", 0);
    sched.new_ep = 5;
    let a = c.step(Answer::Search(Ok(vec![sched])));
    assert!(matches!(a, CreateAction::Finish));
    assert_eq!(c.stage, CreateStage::Done);

    let anime = c.finish(1000).unwrap();
    assert_eq!(anime.id, "42");
    assert_eq!(anime.gogo_id, "naruto");
    assert_eq!(anime.title, "Naruto");
    assert_eq!(anime.animegg_id, "egg");
    assert_eq!(anime.mal_id, "20");
    assert_eq!(anime.schedule_id, "sn");
    assert_eq!(anime.details.rating, "8.1");
    assert_eq!(anime.details.new_ep, 5);
    assert_eq!(anime.last_updated, 1000);
    let eps: Vec<(&str, &str, &str)> = anime
        .episodes
        .iter()
        .map(|e| (e.num.as_str(), e.gogoanime_url.as_str(), e.animegg_url.as_str()))
        .collect();
    assert_eq!(
        eps,
        vec![("1", "u1", "e1"), ("2", "/error", "e2"), ("naruto-episode-3", "/error", "e3")]
    );
}

#[test]
fn gathering_an_unknown_id_is_invalid() {
    let (mut c, _) = Create::start("nope", 1, sites());
    let a = c.step(Answer::Details(Err(err())));
    assert!(matches!(a, CreateAction::Finish));
    let e = c.finish(5).unwrap_err();
    assert!(e.is_error);
    assert_eq!(e.reason, "Invalid id!");
}

#[test]
fn gathering_an_untitled_series_stores_nothing() {
    let (mut c, _) = Create::start("x", 1, sites());
    c.step(Answer::Details(Ok(AnimeDetails::new())));
    c.step(Answer::Episodes(Vec::new()));
    c.step(Answer::Search(Ok(Vec::new())));
    c.step(Answer::Search(Ok(Vec::new())));
    let a = c.step(Answer::Search(Ok(Vec::new())));
    assert!(matches!(a, CreateAction::Finish));
    let e = c.finish(5).unwrap_err();
    assert_eq!(e.reason, "No data collected");
}

fn release(id: &str) -> AnimeRelease {
    let mut r = AnimeRelease::new();
    r.id = Some(id.to_string());
    r.episode_num = Some("3".to_string());
    r
}

#[test]
fn home_rebuild_falls_back_to_the_second_site() {
    let (mut b, a) = HomeBuild::start("5:3:2024", 1000, 300, sites());
    assert!(matches!(&a, HomeAction::ReadStored(d) if d == "5:3:2024"));
    let a = b.step(HomeEvent::Stored(None));
    assert!(matches!(&a, HomeAction::Fetch(HomeSource::GogoRecent, u) if u == "https://a/page-recent-release.html?page=1"));
    let a = b.step(HomeEvent::Releases(Ok(Vec::new())));
    assert!(matches!(&a, HomeAction::Fetch(HomeSource::AnimeggRecent, u) if u == "https://e/releases/"));
    let a = b.step(HomeEvent::Releases(Ok(vec![release("naruto"), release("gone")])));
    match &a {
        HomeAction::Lookup(ids, kind) => {
            assert_eq!(ids, &vec!["naruto".to_string(), "gone".to_string()]);
            assert_eq!(*kind, IdType::AnimeGG);
        },
        _ => panic!("expected a lookup"),
    }
    let mut stored = Anime::new();
    stored.id = "42".to_string();
    stored.title = "Naruto".to_string();
    let a = b.step(HomeEvent::Found(vec![Some(stored.clone()), None]));
    assert!(matches!(&a, HomeAction::Fetch(HomeSource::Popular, u) if u == "https://g/popular.html?page=1"));
    assert_eq!(b.home.recent.len(), 1);
    assert_eq!(b.home.recent[0].id, Some("42".to_string()));
    let a = b.step(HomeEvent::Popular(Ok(vec![found("naruto", 0)])));
    assert!(matches!(&a, HomeAction::Lookup(ids, IdType::Gogoanime) if ids == &vec!["naruto".to_string()]));
    let a = b.step(HomeEvent::Found(vec![Some(stored)]));
    assert!(matches!(a, HomeAction::Store));
    assert_eq!(b.stage, HomeStage::Store);
    assert_eq!(b.home.popular.len(), 1);
    assert_eq!(b.home.popular[0].title, Some("Naruto".to_string()));
    assert_eq!(b.home.date, "5:3:2024");
}

#[test]
fn home_rebuild_waits_while_the_stored_page_is_fresh() {
    let (mut b, _) = HomeBuild::start("5:3:2024", 1000, 300, sites());
    let mut stored = Home::new();
    stored.last_updated = 900;
    match b.step(HomeEvent::Stored(Some(stored))) {
        HomeAction::Cooldown(c) => {
            assert!(c.is_error);
            assert_eq!(c.reason, "On cooldown!");
        },
        _ => panic!("expected a cooldown"),
    }
    let (mut b, _) = HomeBuild::start("5:3:2024", 1000, 300, sites());
    let mut old = Home::new();
    old.last_updated = 600;
    assert!(matches!(b.step(HomeEvent::Stored(Some(old))), HomeAction::Fetch(HomeSource::GogoRecent, _)));
    assert!(matches!(b.step(HomeEvent::Popular(Ok(Vec::new()))), HomeAction::Abort));
}
