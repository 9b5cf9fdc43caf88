use kartof_play::scrapers::gogoanime::{
    anime_details, anime_list, anime_popular, anime_recent, anime_search, anime_stream,
    anime_streaming_url,
};

const DETAILS_PAGE: &str = r#"<html><body><div id="wrapper_inside"><div id="wrapper"><div id="wrapper_bg"><section class="content"><section class="content_left"><div class="main_body"><div class="anime_info_body"><div class="anime_info_body_bg"><img src="https://cdn.example/cover.png"><h1>One Piece</h1><div class="description">Plot Summary: Pirates sail.</div><p class="type"><span>Genre: </span><a href="/genre/action" title="Action">Action</a>, <a href="/genre/slice-of-life" title="Slice of Life">Slice of Life</a>, <a href="/status/ongoing" title="Ongoing">Ongoing</a></p><p class="type other-name"><a>Other name: ワンピース; OP</a></p></div></div></div></section></section></div></div></div><ul id="episode_page"><li><a>0-100</a></li><li><a>101-1100</a></li></ul><input class="movie_id" value="123"></body></html>"#;

#[test]
fn details_page_is_read() {
    let d = anime_details::get(Some(DETAILS_PAGE.to_string())).unwrap();
    assert_eq!(d.cover_url, "https://cdn.example/cover.png");
    assert_eq!(d.title, Some("One Piece".to_string()));
    assert_eq!(d.description, "Pirates sail.");
    assert_eq!(d.other_names, vec!["ワンピース".to_string(), "OP".to_string()]);
    assert_eq!(d.genres, vec!["Action".to_string(), "Slice of Life".to_string()]);
    assert_eq!(d.episodes, 1100);
    assert_eq!(d.movie_id, Some("123".to_string()));
    assert_eq!(d.id, None);
}

#[test]
fn details_page_without_data_is_blank() {
    let d = anime_details::get(Some("<html><body></body></html>".to_string())).unwrap();
    assert_eq!(d.title, None);
    assert_eq!(d.description, "");
    assert!(d.other_names.is_empty());
    assert!(d.genres.is_empty());
    assert_eq!(d.episodes, 0);
    assert_eq!(d.movie_id, None);
}

#[test]
fn failed_request_is_an_http_error() {
    assert_eq!(anime_details::get(None).unwrap_err().reason, "Failed to make http request");
    assert_eq!(anime_list::get(None).unwrap_err().reason, "Failed to make http request");
    assert_eq!(anime_popular::get(None).unwrap_err().reason, "Failed to make http request");
    assert_eq!(anime_recent::get(None).unwrap_err().reason, "Failed to make http request");
    assert_eq!(anime_search::get(None).unwrap_err().reason, "Failed to make http request");
    assert_eq!(anime_stream::get(None).unwrap_err().reason, "Failed to make http request");
    assert!(anime_details::get_episodes(None).is_empty());
}

#[test]
fn addresses_are_built() {
    assert_eq!(anime_details::details_url("https://g/", "naruto"), "https://g/category/naruto");
    assert_eq!(
        anime_details::episodes_url("https://a/ajax/", "77"),
        "https://a/ajax/load-list-episode?ep_start=0&ep_end=999999&id=77"
    );
    assert_eq!(anime_list::list_url("https://g/", "3"), "https://g/anime-list.html?page=3");
    assert_eq!(anime_popular::popular_url("https://g/", "1"), "https://g/popular.html?page=1");
    assert_eq!(
        anime_recent::recent_url("https://a/ajax/", "2"),
        "https://a/ajax/page-recent-release.html?page=2"
    );
    assert_eq!(anime_stream::stream_url("https://g/", "x-episode-1"), "https://g/x-episode-1");
}

#[test]
fn search_query_is_trimmed_and_url_encoded() {
    assert_eq!(
        anime_search::search_url("https://g/", "  one piece&more "),
        "https://g/search.html?keyword=one%20piece%26more"
    );
}

#[test]
fn episode_list_gives_trimmed_paths() {
    let page = r#"<ul><li><a href=" /naruto-episode-2 ">2</a></li><li><a href="/naruto-episode-1">1</a></li><li><a>none</a></li></ul>"#;
    let eps = anime_details::get_episodes(Some(page.to_string()));
    assert_eq!(eps, vec!["/naruto-episode-2".to_string(), "/naruto-episode-1".to_string()]);
}

#[test]
fn list_page_gives_ids_without_category_prefix() {
    let page = r#"<div class="anime_list_body"><ul><li><a href="/category/naruto">Naruto</a></li><li><a href="/category/bleach">Bleach</a></li></ul></div>"#;
    let ids = anime_list::get(Some(page.to_string())).unwrap();
    assert_eq!(ids, vec!["naruto".to_string(), "bleach".to_string()]);
}

#[test]
fn popular_page_gives_ids_and_release_years() {
    let page = r#"<div class="last_episodes"><ul><li><div class="img"><a href="/category/naruto" title="Naruto"><img src="n.png"></a></div><p class="released">Released: 2002</p></li></ul></div>"#;
    let list = anime_popular::get(Some(page.to_string())).unwrap();
    assert_eq!(list.len(), 1);
    assert_eq!(list[0].title, Some("Naruto".to_string()));
    assert_eq!(list[0].id, Some("naruto".to_string()));
    assert_eq!(list[0].cover_url, "n.png");
    assert_eq!(list[0].released, Some("2002".to_string()));
}

#[test]
fn recent_page_splits_series_and_episode() {
    let page = r#"<ul class="items"><li><div class="img"><a href="/naruto-episode-12" title="Naruto"><img src="n.png"><div class="type ic-SUB"></div></a></div></li><li><div class="img"><a href="/untitled">x</a></div></li></ul>"#;
    let list = anime_recent::get(Some(page.to_string())).unwrap();
    assert_eq!(list.len(), 1);
    assert_eq!(list[0].id, Some("naruto".to_string()));
    assert_eq!(list[0].episode_num, Some("12".to_string()));
    assert_eq!(list[0].title, Some("Naruto".to_string()));
    assert_eq!(list[0].cover_url, "n.png");
    assert!(list[0].is_sub);
    assert!(list[0].is_out);
}

#[test]
fn recent_entry_without_a_path_segment_is_unreadable() {
    let page = r#"<ul class="items"><li><div class="img"><a href="naruto" title="Naruto"></a></div></li></ul>"#;
    assert_eq!(anime_recent::get(Some(page.to_string())).unwrap_err().reason, "Error Parsing page");
}

#[test]
fn search_page_gives_titled_results() {
    let page = r#"<ul class="items"><li><div class="img"><a href="/category/naruto" title="Naruto"><img src="n.png"></a><p class="released">   Released: 2002   </p></div></li></ul>"#;
    let list = anime_search::get(Some(page.to_string())).unwrap();
    assert_eq!(list.len(), 1);
    assert_eq!(list[0].id, Some("category".to_string()));
    assert_eq!(list[0].title, Some("Naruto".to_string()));
    assert_eq!(list[0].released, Some("2002".to_string()));
}

#[test]
fn stream_page_gives_the_player_frame() {
    let page = r#"<div id="load_anime"><div><div><iframe src="//embed.example/v?id=1"></iframe></div></div></div>"#;
    assert_eq!(anime_stream::get(Some(page.to_string())).unwrap(), "//embed.example/v?id=1");
    let err = anime_stream::get(Some("<p></p>".to_string())).unwrap_err();
    assert_eq!(err.reason, "Error getting the url");
}

#[test]
fn streaming_url_output_is_cleaned() {
    assert_eq!(
        anime_streaming_url::get("https://cdn/x.m3u8\nexit code: 0\n").unwrap(),
        "https://cdn/x.m3u8"
    );
    assert_eq!(anime_streaming_url::get("exit code: 1").unwrap_err().reason, "Id is invalid");
    let long = "x".repeat(201);
    assert_eq!(anime_streaming_url::get(&long).unwrap_err().reason, "Id is invalid");
}

#[test]
fn search_query_is_encoded_as_utf8_bytes() {
    assert_eq!(anime_search::search_url("x/", "é~ナ"), "x/search.html?keyword=%C3%A9~%E3%83%8A");
}
