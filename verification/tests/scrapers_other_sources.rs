use kartof_play::scrapers::anime_schedule;
use kartof_play::scrapers::animegg;
use kartof_play::scrapers::mal;

const EGG_SERIES: &str = r#"<html><body><div class="navbar navbar-inverse bs-docs-nav"><div class="fattynav"><div class="fattynavinside"><div><div><a href="/series/naruto"><img src="/img/naruto.jpg"></a><div><div class="first"><h1>Naruto</h1></div></div></div></div></div><div class="container"><p>A ninja story.</p></div></div></div><p class="infoami"><span>Episodes: 220</span><span>Alternate Titles: NARUTO; ナルト</span></p><ul><li><a class="anm_det_pop" href="/naruto-episode-2/">2</a></li><li><a class="anm_det_pop" href=" /naruto-episode-1 ">1</a></li></ul></body></html>"#;

#[test]
fn second_source_series_page_is_read() {
    let d = animegg::anime_details::get("naruto", Some(EGG_SERIES.to_string())).unwrap();
    assert_eq!(d.cover_url, "/img/naruto.jpg");
    assert_eq!(d.title, Some("Naruto".to_string()));
    assert_eq!(d.description, "A ninja story.");
    assert_eq!(d.id, Some("naruto".to_string()));
    assert_eq!(d.episodes, 220);
    assert_eq!(d.other_names, vec!["NARUTO".to_string(), "ナルト".to_string()]);
}

#[test]
fn second_source_episode_links_lose_their_slashes() {
    let ids = animegg::anime_details::get_episodes(Some(EGG_SERIES.to_string()));
    assert_eq!(ids, vec!["naruto-episode-2".to_string(), "naruto-episode-1".to_string()]);
    assert!(animegg::anime_details::get_episodes(None).is_empty());
}

#[test]
fn second_source_later_info_entries_win() {
    let page = r#"<p class="infoami"><span>Episodes: 12</span><span>Episodes: x</span></p>"#;
    let d = animegg::anime_details::get("x", Some(page.to_string())).unwrap();
    assert_eq!(d.episodes, 0);
}

#[test]
fn second_source_releases_are_read() {
    let page = r#"<ul class="popanime cats"><li><div><div class="releaseImg"><img src="r.png"></div><a class="releaseLink" href="/series/naruto">Naruto</a><strong>Naruto Episode 12</strong></div></li><li><span>no link</span></li></ul>"#;
    let list = animegg::anime_recent::get(Some(page.to_string())).unwrap();
    assert_eq!(list.len(), 1);
    assert_eq!(list[0].title, Some("Naruto".to_string()));
    assert_eq!(list[0].id, Some("naruto".to_string()));
    assert_eq!(list[0].cover_url, "r.png");
    assert_eq!(list[0].episode_num, Some("12".to_string()));
    assert!(!list[0].is_out);
    assert!(!list[0].is_sub);
    assert_eq!(list[0].release_time, None);
}

#[test]
fn second_source_search_results_are_read() {
    let page = r#"<div class="moose page"><a href="/series/bleach"><div><img class="media-object" src="b.png"><div class="media-body"><h2>Bleach</h2><div><div><div>Episodes: 366</div></div></div></div></div></a><a><h2>No link</h2></a></div>"#;
    let list = animegg::anime_search::get(Some(page.to_string())).unwrap();
    assert_eq!(list.len(), 1);
    assert_eq!(list[0].id, Some("bleach".to_string()));
    assert_eq!(list[0].cover_url, "b.png");
    assert_eq!(list[0].title, Some("Bleach".to_string()));
    assert_eq!(list[0].episodes, 366);
    assert_eq!(
        animegg::anime_search::search_url("https://e/", " dr. stone "),
        "https://e/search/?q=dr.%20stone"
    );
}

#[test]
fn second_source_player_address() {
    let page = r#"<iframe class="video" src="/embed/12345"></iframe>"#;
    assert_eq!(
        animegg::anime_stream::get("https://e/", Some(page.to_string())).unwrap(),
        "https://e/embed/12345"
    );
    assert_eq!(animegg::anime_stream::get("https://e/", Some("<p></p>".to_string())).unwrap(), "/error");
    assert_eq!(
        animegg::anime_stream::get("https://e/", None).unwrap_err().reason,
        "Failed to make http request"
    );
    assert_eq!(animegg::anime_stream::stream_url("https://e/", "x-episode-1"), "https://e/x-episode-1");
}

const MAL_SERIES: &str = "<html><body><div class=\"title-name\"><strong>  Cowboy Bebop </strong></div><div class=\"leftside\"><div><a href=\"#\"><img class=\"lazyload\" data-src=\"https://cdn/bebop.jpg\"></a></div></div><p itemprop=\"description\">Space bounty hunters.\n[Written by MAL Rewrite]</p><span class=\"score-label\" itemprop=\"ratingValue\">8.75</span><span itemprop=\"genre\">Action</span><span itemprop=\"genre\">Sci-Fi</span><div class=\"js-alternative-titles\"><div class=\"spaceit_pad\"><span>Japanese:</span> カウボーイビバップ</div><div class=\"spaceit_pad\"><span>English:</span> Cowboy Bebop: Extra</div></div><div><span>Premiered:</span>\n          Spring 1998</div><div><span>Episodes:</span>\n          26</div></body></html>";

#[test]
fn rating_site_series_page_is_read() {
    let d = mal::anime_details::get("1", Some(MAL_SERIES.to_string())).unwrap();
    assert_eq!(d.title, Some("Cowboy Bebop".to_string()));
    assert_eq!(d.id, Some("1".to_string()));
    assert_eq!(d.cover_url, "https://cdn/bebop.jpg");
    assert_eq!(d.description, "Space bounty hunters.");
    assert_eq!(d.rating, "8.75");
    assert_eq!(d.genres, vec!["Action".to_string(), "Sci-Fi".to_string()]);
    assert_eq!(d.other_names, vec!["カウボーイビバップ".to_string(), "Cowboy Bebop: Extra".to_string()]);
    assert_eq!(d.released, Some("Spring 1998".to_string()));
    assert_eq!(d.episodes, 26);
}

#[test]
fn rating_site_search_skips_the_header_row() {
    let page = r#"<div class="js-categories-seasonal js-block-list list"><table><tr><td>header</td></tr><tr><td><div class="picSurround"><a href="https://myanimelist.net/anime/1/Cowboy_Bebop">p</a></div></td><td><a class="hoverinfo_trigger"><img data-srcset="https://cdn/r/100x140/images/anime/4/19644.jpg 1x https://cdn/r/100x140/images/anime/4/19644.jpg 2x" alt="Cowboy Bebop"></a><div class="pt4">Bounty hunters.</div></td><td>TV</td><td>26</td><td> 8.75 </td></tr></table></div>"#;
    let list = mal::anime_search::get(Some(page.to_string())).unwrap();
    assert_eq!(list.len(), 1);
    assert_eq!(list[0].id, Some("1".to_string()));
    assert_eq!(list[0].title, Some("Cowboy Bebop".to_string()));
    assert_eq!(list[0].cover_url, "https://cdn/images/anime/4/19644l.jpg");
    assert_eq!(list[0].description, "Bounty hunters.");
    assert_eq!(list[0].rating, "8.75");
}

#[test]
fn rating_site_long_queries_are_cut() {
    assert_eq!(mal::anime_search::search_query("bebop"), "bebop");
    let long = format!("{},second part,third", "a".repeat(100));
    assert_eq!(mal::anime_search::search_query(&long), "second part");
    assert_eq!(
        mal::anime_search::search_url("https://m/", "bebop"),
        "https://m/anime.php?cat=anime&q=bebop"
    );
    assert_eq!(mal::anime_details::details_url("https://m/", "1"), "https://m/anime/1");
}

#[test]
fn schedule_series_page_reads_its_release_time() {
    let page = "<html><body><time id=\"release-time-subs\" datetime=\"2024-07-28T15:30&#43;00:00\"></time><h1 id=\"anime-header-main-title\">Oshi no Ko</h1><div id=\"description\">Line one\nLine two</div><img id=\"anime-poster\" src=\"https://img/oshi.jpg\"></body></html>";
    let d = anime_schedule::anime_details::get("oshi-no-ko", Some(page.to_string())).unwrap();
    assert_eq!(d.new_ep, 1722180600);
    assert_eq!(d.title, Some("Oshi no Ko".to_string()));
    assert_eq!(d.description, "Line oneLine two");
    assert_eq!(d.cover_url, "https://img/oshi.jpg");
    assert_eq!(d.id, Some("oshi-no-ko".to_string()));
}

#[test]
fn schedule_series_page_without_release_time_is_unreadable() {
    let e = anime_schedule::anime_details::get("x", Some("<h1>x</h1>".to_string())).unwrap_err();
    assert_eq!(e.reason, "Error Parsing page");
    let page = "<time id=\"release-time-subs\" datetime=\"soon\"></time>";
    let e = anime_schedule::anime_details::get("x", Some(page.to_string())).unwrap_err();
    assert_eq!(e.reason, "Error Parsing page");
}

const TIMETABLE: &str = r#"<html><body><div id="timetable-timezone-text-mobile">Times in (UTC)</div><div id="active-day"><div class="timetable-column-day">Monday</div><div class="timetable-column-show aired expanded" route="oshi-no-ko"><h3 class="time-bar"><span class="show-episode">Ep 5</span><time class="show-air-time" datetime="2024-07-28T15:30&#43;00:00">3:30 PM</time></h3><a class="show-link"><img src="o.png"><h2 class="show-title-bar">Oshi no Ko</h2></a><span>SUB</span></div><div class="timetable-column-show unaired expanded" route="later"><h3 class="time-bar"><span class="show-episode">Ep 1</span><time class="show-air-time" datetime="2024-07-28T09:00&#43;02:00">9:00 AM</time></h3><a class="show-link"><h2 class="show-title-bar">Later</h2></a></div><div class="timetable-column-show aired expanded" route="no-episode"><h3 class="time-bar"><span class="show-episode"></span><time class="show-air-time" datetime="2024-07-28T09:00&#43;00:00"></time></h3></div></div></body></html>"#;

#[test]
fn schedule_today_lists_shows_with_episodes() {
    let list = anime_schedule::anime_schedule::get(Some(TIMETABLE.to_string()), 1722170000, 0).unwrap();
    assert_eq!(list.len(), 2);
    assert_eq!(list[0].id, Some("oshi-no-ko".to_string()));
    assert_eq!(list[0].title, Some("Oshi no Ko".to_string()));
    assert_eq!(list[0].episode_num, Some("Ep 5".to_string()));
    assert_eq!(list[0].cover_url, "o.png");
    assert_eq!(list[0].release_time, Some(1722180600));
    assert!(!list[0].is_out);
    assert!(list[0].is_sub);
    assert_eq!(list[1].id, Some("later".to_string()));
    assert_eq!(list[1].release_time, Some(1722150000));
    assert!(list[1].is_out);
    assert!(!list[1].is_sub);
}

#[test]
fn schedule_release_is_out_within_its_own_second() {
    let at_air = anime_schedule::anime_schedule::get(Some(TIMETABLE.to_string()), 1722180600, 0).unwrap();
    assert!(!at_air[0].is_out);
    let just_after = anime_schedule::anime_schedule::get(Some(TIMETABLE.to_string()), 1722180600, 1).unwrap();
    assert!(just_after[0].is_out);
}

#[test]
fn schedule_show_without_route_is_unreadable() {
    let page = r#"<div id="active-day"><div class="timetable-column-show aired expanded"><h3 class="time-bar"><span class="show-episode">Ep 1</span><time class="show-air-time" datetime="2024-07-28T09:00&#43;00:00"></time></h3></div></div>"#;
    let e = anime_schedule::anime_schedule::get(Some(page.to_string()), 0, 0).unwrap_err();
    assert_eq!(e.reason, "Error Parsing page");
}

#[test]
fn schedule_search_reads_tiles() {
    let page = r#"<div class="anime-tile lozad" id="oshi-no-ko" genres="Drama,Idol"><div><h2 class="anime-tile-title">Oshi no Ko</h2><img class="anime-tile-thumbnail" src="t.png"><p class="anime-tile-description">  Stars.  </p></div></div><div class="anime-tile lozad"><h2 class="anime-tile-title">No id</h2></div>"#;
    let list = anime_schedule::anime_search::get(Some(page.to_string())).unwrap();
    assert_eq!(list.len(), 1);
    assert_eq!(list[0].id, Some("oshi-no-ko".to_string()));
    assert_eq!(list[0].genres, vec!["Drama".to_string(), "Idol".to_string()]);
    assert_eq!(list[0].title, Some("Oshi no Ko".to_string()));
    assert_eq!(list[0].cover_url, "t.png");
    assert_eq!(list[0].description, "Stars.");
    assert_eq!(
        anime_schedule::anime_search::search_url("https://s/", "oshi no ko"),
        "https://s/shows?mt=all&st=search&q=oshi+no+ko"
    );
}

#[test]
fn schedule_search_that_lands_on_a_series_page() {
    let page = r#"<html><head><meta property="og:url" content="https://animeschedule.net/anime/oshi-no-ko"></head><body><time id="release-time-subs" datetime="2024-07-28T15:30&#43;00:00"></time></body></html>"#;
    let list = anime_schedule::anime_search::get(Some(page.to_string())).unwrap();
    assert_eq!(list.len(), 1);
    assert_eq!(list[0].id, Some("oshi-no-ko".to_string()));
    assert_eq!(list[0].new_ep, 1722180600);
    let empty = anime_schedule::anime_search::get(Some("<p></p>".to_string())).unwrap();
    assert_eq!(empty.len(), 1);
    assert_eq!(empty[0].id, None);
    assert_eq!(empty[0].new_ep, 0);
}
