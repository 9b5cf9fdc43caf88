//! Building a series record from the source sites, and refreshing it.
use std::cmp::Ordering;
use vstd::prelude::*;
use crate::text::{
    chars_of, i64_text, int_text, lex_order, lex_order_exec, parse_unsigned, parse_unsigned_exec,
    split, split_exec, string_of, views, lemma_split_nonempty,
};
use crate::scrapers::common::opt_view;
use crate::utils::types::{Anime, AnimeDetails, CacheResult, Episode, error_url};

verus! {

broadcast use vstd::seq_lib::group_to_multiset_ensures, vstd::multiset::group_multiset_properties;

/// The order of two episode numbers, as -1, 0 or 1: by value when both are
/// decimal numbers that fit in a `u32`, otherwise as text.
pub open spec fn episode_order(a: Seq<char>, b: Seq<char>) -> int {
    let x = parse_unsigned(a, 4294967295);
    let y = parse_unsigned(b, 4294967295);
    if x is Some && y is Some {
        if x->0 < y->0 {
            -1
        } else if y->0 < x->0 {
            1
        } else {
            0
        }
    } else {
        lex_order(a, b)
    }
}

pub proof fn lemma_lex_order_antisymmetric(a: Seq<char>, b: Seq<char>)
    ensures
        lex_order(a, b) == -lex_order(b, a),
        lex_order(a, a) == 0,
        -1 <= lex_order(a, b) <= 1,
    decreases a.len(),
{
    if a.len() > 0 && b.len() > 0 && a[0] == b[0] {
        lemma_lex_order_antisymmetric(a.drop_first(), b.drop_first());
    }
    if a.len() > 0 {
        lemma_lex_order_antisymmetric(a.drop_first(), a.drop_first());
    }
}

/// Comparing episode numbers is antisymmetric, and a number is equal to itself.
pub proof fn lemma_episode_order_antisymmetric(a: Seq<char>, b: Seq<char>)
    ensures
        episode_order(a, b) == -episode_order(b, a),
        episode_order(a, a) == 0,
        -1 <= episode_order(a, b) <= 1,
{
    lemma_lex_order_antisymmetric(a, b);
    lemma_lex_order_antisymmetric(a, a);
}

/// Comparing two episode numbers the other way round gives the opposite
/// answer; two numbers that both read as a `u32` (as `str::parse` reads
/// them) compare by value, and any others compare as text, character by
/// character, the shorter of two texts where one begins the other coming
/// first (the order of `str::cmp`, UTF-8 keeping the order of characters).
pub proof fn law_compare(a: Seq<char>, b: Seq<char>)
    ensures
        episode_order(a, b) == -episode_order(b, a),
        parse_unsigned(a, 4294967295) matches Some(x) ==> (parse_unsigned(b, 4294967295) matches Some(y)
            ==> episode_order(a, b) == (if x < y {
            -1
        } else if y < x {
            1
        } else {
            0
        })),
        !(parse_unsigned(a, 4294967295) is Some && parse_unsigned(b, 4294967295) is Some) ==> episode_order(a, b)
            == lex_order(a, b),
{
    lemma_episode_order_antisymmetric(a, b);
}

/// The order of two episode numbers, as -1, 0 or 1.
pub fn episode_order_exec(a: &str, b: &str) -> (r: i8)
    ensures
        r as int == episode_order(a@, b@),
{
    let av = chars_of(a);
    let bv = chars_of(b);
    let x = parse_unsigned_exec(&av, 4294967295);
    let y = parse_unsigned_exec(&bv, 4294967295);
    match (x, y) {
        (Some(p), Some(q)) => {
            if p < q {
                -1
            } else if q < p {
                1
            } else {
                0
            }
        },
        _ => lex_order_exec(&av, &bv),
    }
}

/// Compare two episode numbers: by value when both are decimal numbers that
/// fit in a `u32`, otherwise as text.
pub fn compare(a: &str, b: &str) -> (r: Ordering)
    ensures
        (r == Ordering::Less) == (episode_order(a@, b@) == -1),
        (r == Ordering::Equal) == (episode_order(a@, b@) == 0),
        (r == Ordering::Greater) == (episode_order(a@, b@) == 1),
{
    proof {
        lemma_episode_order_antisymmetric(a@, b@);
    }
    let o = episode_order_exec(a, b);
    if o < 0 {
        Ordering::Less
    } else if o > 0 {
        Ordering::Greater
    } else {
        Ordering::Equal
    }
}

/// Each episode is ordered no later than the one after it.
pub open spec fn episodes_sorted(s: Seq<Episode>) -> bool {
    forall|i: int| 0 <= i < s.len() - 1 ==> episode_order(#[trigger] s[i].num@, s[i + 1].num@) <= 0
}

proof fn lemma_swap_multiset(s: Seq<Episode>, j: int)
    requires
        0 < j < s.len(),
    ensures
        s.remove(j).insert(j - 1, s[j]).to_multiset() == s.to_multiset(),
{
    let t = s.remove(j).insert(j - 1, s[j]);
    assert(t.remove(j - 1) =~= s.remove(j));
    assert(t[j - 1] == s[j]);
    assert(t.to_multiset() =~= t.remove(j - 1).to_multiset().insert(s[j]));
    assert(s.to_multiset() =~= s.remove(j).to_multiset().insert(s[j]));
}

/// `e1` holds the episodes of `e0` rearranged: `e1[k]` is `e0[perm[k]]`,
/// each episode of `e0` once.
pub open spec fn rearranged(e0: Seq<Episode>, e1: Seq<Episode>, perm: Seq<int>) -> bool {
    &&& e1.len() == e0.len()
    &&& perm.len() == e1.len()
    &&& forall|k: int| 0 <= k < e1.len() ==> 0 <= #[trigger] perm[k] < e0.len() && e1[k] == e0[perm[k]]
    &&& forall|a: int, b: int| 0 <= a < b < perm.len() ==> #[trigger] perm[a] != #[trigger] perm[b]
}

/// An episode is placed before one that came before it only when that one
/// is ordered after it: episodes that compare equal keep their order.
pub open spec fn order_kept(e1: Seq<Episode>, perm: Seq<int>) -> bool {
    forall|a: int, b: int|
        0 <= a < b < e1.len() && #[trigger] perm[a] > #[trigger] perm[b] ==> episode_order(e1[b].num@, e1[a].num@)
            == 1
}

/// `e1` holds the episodes of `e0`, each ordered no later than the next,
/// and those that compare equal in the order they had.
pub open spec fn sorted_from(e0: Seq<Episode>, e1: Seq<Episode>) -> bool {
    &&& e1.to_multiset() == e0.to_multiset()
    &&& episodes_sorted(e1)
    &&& exists|perm: Seq<int>| #[trigger] rearranged(e0, e1, perm) && order_kept(e1, perm)
}

/// Sort episodes by their numbers, stably.
pub fn sort_episodes(eps: &mut Vec<Episode>)
    ensures
        sorted_from(old(eps)@, final(eps)@),
{
    let n = eps.len();
    let ghost mut perm = Seq::new(n as nat, |k: int| k);
    assert(rearranged(old(eps)@, eps@, perm));
    if n < 2 {
        proof {
            if n == 1 {
                assert(episodes_sorted(eps@));
            }
        }
        assert(order_kept(eps@, perm));
        return;
    }
    let mut i: usize = 1;
    while i < n
        invariant
            1 <= i <= n,
            n == eps@.len(),
            eps@.to_multiset() == old(eps)@.to_multiset(),
            episodes_sorted(eps@.take(i as int)),
            rearranged(old(eps)@, eps@, perm),
            order_kept(eps@, perm),
        decreases n - i,
    {
        let mut j: usize = i;
        assert forall|k: int| 0 <= k < j - 1 implies episode_order(
            #[trigger] eps@[k].num@,
            eps@[k + 1].num@,
        ) <= 0 by {
            assert(eps@.take(i as int)[k] == eps@[k]);
            assert(eps@.take(i as int)[k + 1] == eps@[k + 1]);
        }
        while j > 0 && episode_order_exec(eps[j - 1].num.as_str(), eps[j].num.as_str()) > 0
            invariant
                0 <= j <= i < n,
                n == eps@.len(),
                eps@.to_multiset() == old(eps)@.to_multiset(),
                forall|k: int| 0 <= k < j - 1 ==> episode_order(#[trigger] eps@[k].num@, eps@[k + 1].num@) <= 0,
                forall|k: int| j <= k < i ==> episode_order(#[trigger] eps@[k].num@, eps@[k + 1].num@) <= 0,
                0 < j < i ==> episode_order(eps@[j - 1].num@, eps@[j + 1].num@) <= 0,
                rearranged(old(eps)@, eps@, perm),
                order_kept(eps@, perm),
            decreases j,
        {
            let ghost before = eps@;
            let ghost p0 = perm;
            proof {
                lemma_swap_multiset(before, j as int);
                lemma_episode_order_antisymmetric(before[j - 1].num@, before[j as int].num@);
            }
            let x = eps.remove(j);
            eps.insert(j - 1, x);
            assert(eps@ =~= before.remove(j as int).insert(j - 1, before[j as int]));
            assert(eps@[j - 1] == before[j as int]);
            assert(eps@[j as int] == before[j - 1]);
            assert forall|k: int| 0 <= k < n && k != j - 1 && k != j implies eps@[k] == before[k] by {}
            proof {
                perm = p0.update(j - 1, p0[j as int]).update(j as int, p0[j - 1]);
                let jj = j as int;
                assert forall|a: int, b: int| 0 <= a < b < perm.len() implies #[trigger] perm[a]
                    != #[trigger] perm[b] by {
                    let pa = if a == jj - 1 {
                        jj
                    } else if a == jj {
                        jj - 1
                    } else {
                        a
                    };
                    let pb = if b == jj - 1 {
                        jj
                    } else if b == jj {
                        jj - 1
                    } else {
                        b
                    };
                    assert(perm[a] == p0[pa]);
                    assert(perm[b] == p0[pb]);
                    if pa < pb {
                        assert(p0[pa] != p0[pb]);
                    } else {
                        assert(p0[pb] != p0[pa]);
                    }
                }
                assert forall|k: int| 0 <= k < eps@.len() implies 0 <= #[trigger] perm[k] < old(eps)@.len()
                    && eps@[k] == old(eps)@[perm[k]] by {
                    if k == jj - 1 {
                        assert(perm[k] == p0[jj]);
                    } else if k == jj {
                        assert(perm[k] == p0[jj - 1]);
                    } else {
                        assert(perm[k] == p0[k]);
                    }
                }
                assert forall|a: int, b: int|
                    0 <= a < b < eps@.len() && #[trigger] perm[a] > #[trigger] perm[b] implies episode_order(
                    eps@[b].num@,
                    eps@[a].num@,
                ) == 1 by {
                    if a == jj - 1 && b == jj {
                    } else {
                        let pa = if a == jj - 1 {
                            jj
                        } else if a == jj {
                            jj - 1
                        } else {
                            a
                        };
                        let pb = if b == jj - 1 {
                            jj
                        } else if b == jj {
                            jj - 1
                        } else {
                            b
                        };
                        assert(perm[a] == p0[pa]);
                        assert(perm[b] == p0[pb]);
                        assert(eps@[a] == before[pa]);
                        assert(eps@[b] == before[pb]);
                        assert(pa < pb);
                        assert(p0[pa] > p0[pb]);
                    }
                }
            }
            j = j - 1;
        }
        proof {
            assert forall|k: int| 0 <= k < (i + 1) - 1 implies episode_order(
                #[trigger] eps@.take(i + 1)[k].num@,
                eps@.take(i + 1)[k + 1].num@,
            ) <= 0 by {
                assert(eps@.take(i + 1)[k] == eps@[k]);
                assert(eps@.take(i + 1)[k + 1] == eps@[k + 1]);
                if k < j - 1 {
                } else if k == j - 1 {
                } else {
                }
            }
        }
        i = i + 1;
    }
    assert(eps@.take(n as int) =~= eps@);
}

/// When every episode number is a decimal number that fits in a `u32`,
/// episodes in sorted order have non-decreasing numbers.
pub proof fn law_sorted_numbers_increase(s: Seq<Episode>, i: int, j: int)
    requires
        episodes_sorted(s),
        forall|k: int| 0 <= k < s.len() ==> (#[trigger] parse_unsigned(s[k].num@, 4294967295)) is Some,
        0 <= i <= j < s.len(),
    ensures
        parse_unsigned(s[i].num@, 4294967295)->0 <= parse_unsigned(s[j].num@, 4294967295)->0,
    decreases j - i,
{
    if i < j {
        law_sorted_numbers_increase(s, i + 1, j);
        assert(episode_order(s[i].num@, s[i + 1].num@) <= 0);
        assert(parse_unsigned(s[i + 1].num@, 4294967295) is Some);
    }
}

/// The text an optional string holds, or the empty text.
pub open spec fn opt_text(o: Option<String>) -> Seq<char> {
    match o {
        Some(s) => s@,
        None => Seq::<char>::empty(),
    }
}

pub fn opt_string(o: Option<String>) -> (r: String)
    ensures
        r@ == opt_text(o),
{
    match o {
        Some(s) => s,
        None => String::new(),
    }
}

/// The marker between a series path and its episode number.
pub open spec fn episode_marker() -> Seq<char> {
    seq!['-', 'e', 'p', 'i', 's', 'o', 'd', 'e', '-']
}

/// The episode number in an episode path: the text after the last `-episode-`.
pub open spec fn episode_number_of(path: Seq<char>) -> Seq<char> {
    split(path, episode_marker()).last()
}

/// The episode number in an episode path.
pub fn episode_number(path: &str) -> (r: String)
    ensures
        r@ == episode_number_of(path@),
{
    let marker = "-episode-";
    proof {
        reveal_strlit("-episode-");
    }
    assert(marker@ =~= episode_marker());
    let pieces = split_exec(&chars_of(path), &chars_of(marker));
    proof {
        lemma_split_nonempty(path@, episode_marker());
        assert(views(pieces@).len() == pieces@.len());
        assert(views(pieces@)[pieces@.len() - 1] == pieces@[pieces@.len() - 1]@);
    }
    let last = &pieces[pieces.len() - 1];
    string_of(last)
}

/// The stream address to keep: the one found, or the error address when none was.
pub open spec fn stream_or_error(url: Seq<char>) -> Seq<char> {
    if url.len() == 0 {
        error_url()
    } else {
        url
    }
}

/// The episode an episode path of the first source gives, with the stream
/// address found for it (empty when none was found).
pub fn gogo_episode(path: &str, stream_url: String) -> (e: Episode)
    ensures
        e.num@ == episode_number_of(path@),
        e.gogoanime_url@ == stream_or_error(stream_url@),
        e.animegg_url@ == error_url(),
{
    let mut e = Episode::new();
    e.num = episode_number(path);
    if !stream_url.as_str().is_empty() {
        e.gogoanime_url = stream_url;
    }
    e
}

/// The episodes of a new series: one for each non-empty episode path, in order.
pub open spec fn gogo_episodes_spec(paths: Seq<Seq<char>>, urls: Seq<Seq<char>>) -> Seq<
    (Seq<char>, Seq<char>),
>
    decreases paths.len(),
{
    if paths.len() == 0 {
        Seq::empty()
    } else {
        let rest = gogo_episodes_spec(paths.drop_last(), urls.drop_last());
        if paths.last().len() == 0 {
            rest
        } else {
            rest.push((episode_number_of(paths.last()), stream_or_error(urls.last())))
        }
    }
}

/// The episodes of a new series built from the episode paths of the first
/// source and the stream address found for each (`urls[i]` for `paths[i]`).
pub open spec fn gogo_built(paths: Seq<String>, urls: Seq<String>, r: Seq<Episode>) -> bool {
    let spec = gogo_episodes_spec(paths.map_values(|p: String| p@), urls.map_values(|u: String| u@));
    &&& r.len() == spec.len()
    &&& forall|i: int|
        0 <= i < r.len() ==> {
            &&& (#[trigger] r[i]).num@ == spec[i].0
            &&& r[i].gogoanime_url@ == spec[i].1
            &&& r[i].animegg_url@ == error_url()
        }
}

/// The episodes of a new series from the episode paths of the first source
/// and the stream address found for each.
pub fn gogo_episodes(paths: &Vec<String>, urls: &Vec<String>) -> (r: Vec<Episode>)
    requires
        paths.len() == urls.len(),
    ensures
        gogo_built(paths@, urls@, r@),
{
    let ghost ps = paths@.map_values(|p: String| p@);
    let ghost us = urls@.map_values(|u: String| u@);
    let mut out: Vec<Episode> = Vec::new();
    let mut k: usize = 0;
    while k < paths.len()
        invariant
            0 <= k <= paths.len(),
            paths.len() == urls.len(),
            ps == paths@.map_values(|p: String| p@),
            us == urls@.map_values(|u: String| u@),
            out@.len() == gogo_episodes_spec(ps.take(k as int), us.take(k as int)).len(),
            forall|i: int|
                0 <= i < out@.len() ==> {
                    let e = gogo_episodes_spec(ps.take(k as int), us.take(k as int))[i];
                    &&& (#[trigger] out@[i]).num@ == e.0
                    &&& out@[i].gogoanime_url@ == e.1
                    &&& out@[i].animegg_url@ == error_url()
                },
        decreases paths.len() - k,
    {
        assert(ps.take(k + 1).drop_last() =~= ps.take(k as int));
        assert(us.take(k + 1).drop_last() =~= us.take(k as int));
        assert(ps.take(k + 1).last() == paths@[k as int]@);
        assert(us.take(k + 1).last() == urls@[k as int]@);
        if !paths[k].as_str().is_empty() {
            let e = gogo_episode(paths[k].as_str(), urls[k].clone());
            out.push(e);
        }
        k = k + 1;
    }
    assert(ps.take(k as int) =~= ps);
    assert(us.take(k as int) =~= us);
    out
}

/// The new series record from the details the first source gives for
/// `gogo_id`, its episodes, and the catalogue id `id`.
pub open spec fn record_of(gogo_id: Seq<char>, id: i64, gogo: AnimeDetails, episodes: Vec<Episode>, a: Anime) -> bool {
    &&& a.id@ == int_text(id as int)
    &&& a.gogo_id@ == gogo_id
    &&& a.title@ == opt_text(gogo.title)
    &&& a.animegg_id@ == Seq::<char>::empty()
    &&& a.mal_id@ == Seq::<char>::empty()
    &&& a.schedule_id@ == Seq::<char>::empty()
    &&& a.last_updated == 0
    &&& a.episodes == episodes
    &&& a.details.id matches Some(x) && x@ == gogo_id
    &&& a.details == (AnimeDetails { id: a.details.id, episodes: episodes@.len() as u32, ..gogo })
}

/// A new series record.
pub fn new_anime_record(gogo_id: &str, id: i64, gogo: AnimeDetails, episodes: Vec<Episode>) -> (a: Anime)
    ensures
        record_of(gogo_id@, id, gogo, episodes, a),
{
    let mut a = Anime::new();
    a.id = string_of(&i64_text(id));
    a.gogo_id = gogo_id.to_string();
    a.title = opt_string(gogo.title.clone());
    let n = episodes.len();
    a.details = gogo;
    a.details.id = Some(gogo_id.to_string());
    a.details.episodes = n as u32;
    a.episodes = episodes;
    a
}

/// An episode count within half of `ours` of ours: how a search result on
/// the second source is taken to be the same series.
pub open spec fn count_close(candidate: u32, ours: u32) -> bool {
    (if candidate >= ours {
        candidate - ours
    } else {
        ours - candidate
    }) < ours / 2
}

/// A search result counts as the same series exactly when its episode count
/// differs from ours, in either direction, by less than half of ours: a
/// shorter result is as far from ours as a longer one.
pub proof fn law_count_close(candidate: u32, ours: u32)
    ensures
        candidate < ours ==> (count_close(candidate, ours) <==> ours - candidate < ours / 2),
        candidate >= ours ==> (count_close(candidate, ours) <==> candidate - ours < ours / 2),
        count_close(candidate, ours) ==> ours > 0,
{
}

/// The first search result of the second source whose episode count is
/// close to `episodes`.
pub fn find_animegg_match(results: &Vec<AnimeDetails>, episodes: u32) -> (r: Option<usize>)
    ensures
        r matches Some(i) ==> i < results@.len() && count_close(results@[i as int].episodes, episodes)
            && forall|k: int| 0 <= k < i ==> !count_close(#[trigger] results@[k].episodes, episodes),
        r is None ==> forall|k: int|
            0 <= k < results@.len() ==> !count_close(#[trigger] results@[k].episodes, episodes),
{
    let mut k: usize = 0;
    while k < results.len()
        invariant
            0 <= k <= results.len(),
            forall|j: int| 0 <= j < k ==> !count_close(#[trigger] results@[j].episodes, episodes),
        decreases results.len() - k,
    {
        let c = results[k].episodes;
        let diff = if c >= episodes {
            c - episodes
        } else {
            episodes - c
        };
        if diff < episodes / 2 {
            return Some(k);
        }
        k = k + 1;
    }
    None
}

/// The episode count to keep after the second source reports `found`:
/// the larger one when it exceeds ours by fewer than five.
pub open spec fn merged_count(ours: u32, found: u32) -> u32 {
    if found > ours && found - ours < 5 {
        found
    } else {
        ours
    }
}

/// A new series with what the matching series on the second source tells
/// taken into it.
pub open spec fn animegg_merged(a0: Anime, found: AnimeDetails, a1: Anime) -> bool {
    &&& a1.animegg_id@ == opt_text(found.id)
    &&& a1.details == (AnimeDetails {
        other_names: if a0.details.other_names@.len() == 0 {
            found.other_names
        } else {
            a0.details.other_names
        },
        episodes: merged_count(a0.details.episodes, found.episodes),
        released: found.released,
        ..a0.details
    })
    &&& a1 == (Anime { animegg_id: a1.animegg_id, details: a1.details, ..a0 })
}

/// Take into a new series what the matching series on the second source tells.
pub fn merge_animegg_details(anime: &mut Anime, found: AnimeDetails)
    ensures
        animegg_merged(*old(anime), found, *final(anime)),
{
    anime.animegg_id = opt_string(found.id);
    if anime.details.other_names.len() == 0 {
        anime.details.other_names = found.other_names;
    }
    if found.episodes > anime.details.episodes && found.episodes - anime.details.episodes < 5 {
        anime.details.episodes = found.episodes;
    }
    anime.details.released = found.released;
}

/// The episode list with the stream addresses of the second source put
/// into it: `urls[i]` goes to the episode at index `i`, and where the list
/// is shorter a new episode numbered `ids[i]` is added.
pub open spec fn animegg_streams_merged(e0: Seq<Episode>, ids: Seq<String>, urls: Seq<String>, e1: Seq<Episode>) -> bool {
    &&& e1.len() == if ids.len() > e0.len() {
        ids.len()
    } else {
        e0.len()
    }
    &&& forall|i: int|
        0 <= i < e0.len() ==> #[trigger] e1[i] == if i < ids.len() {
            Episode { animegg_url: urls[i], ..e0[i] }
        } else {
            e0[i]
        }
    &&& forall|i: int|
        e0.len() <= i < ids.len() ==> {
            &&& (#[trigger] e1[i]).num@ == ids[i]@
            &&& e1[i].animegg_url@ == urls[i]@
            &&& e1[i].gogoanime_url@ == error_url()
        }
}

/// Put the stream addresses of the second source into the episode list.
pub fn merge_animegg_episodes(episodes: &mut Vec<Episode>, ids: &Vec<String>, urls: &Vec<String>)
    requires
        ids.len() == urls.len(),
    ensures
        animegg_streams_merged(old(episodes)@, ids@, urls@, final(episodes)@),
{
    let ghost start = episodes@;
    let mut k: usize = 0;
    while k < ids.len()
        invariant
            0 <= k <= ids.len(),
            ids.len() == urls.len(),
            episodes@.len() == if k > start.len() {
                k as nat
            } else {
                start.len()
            },
            forall|i: int|
                0 <= i < start.len() ==> #[trigger] episodes@[i] == if i < k {
                    Episode { animegg_url: urls@[i], ..start[i] }
                } else {
                    start[i]
                },
            forall|i: int|
                start.len() <= i < k ==> {
                    &&& (#[trigger] episodes@[i]).num@ == ids@[i]@
                    &&& episodes@[i].animegg_url@ == urls@[i]@
                    &&& episodes@[i].gogoanime_url@ == error_url()
                },
        decreases ids.len() - k,
    {
        if k < episodes.len() {
            let mut e = episodes.remove(k);
            e.animegg_url = urls[k].clone();
            episodes.insert(k, e);
        } else {
            let mut e = Episode::new();
            e.animegg_url = urls[k].clone();
            e.num = ids[k].clone();
            episodes.push(e);
        }
        k = k + 1;
    }
}

/// A new series with the first search result of the catalogue source and,
/// when they could be read, its details taken into it.
pub open spec fn mal_merged(a0: Anime, first: AnimeDetails, details: Option<AnimeDetails>, a1: Anime) -> bool {
    &&& a1.mal_id@ == opt_text(first.id)
    &&& {
        let d0 = AnimeDetails { rating: first.rating, ..a0.details };
        match details {
            None => a1.details == d0 && a1.title == a0.title,
            Some(d) => {
                let untitled = opt_text(a0.details.title).len() == 0;
                &&& a1.details == (AnimeDetails {
                    released: d.released,
                    cover_url: if d0.cover_url@.len() == 0 {
                        d.cover_url
                    } else {
                        d0.cover_url
                    },
                    title: if untitled {
                        d.title
                    } else {
                        d0.title
                    },
                    ..d0
                })
                &&& a1.title@ == if untitled {
                    opt_text(d.title)
                } else {
                    a0.title@
                }
            },
        }
    }
    &&& a1 == (Anime { mal_id: a1.mal_id, details: a1.details, title: a1.title, ..a0 })
}

/// Take into a new series the first search result of the catalogue source
/// and, when they could be read, its details.
pub fn merge_mal(anime: &mut Anime, first: AnimeDetails, details: Option<AnimeDetails>)
    ensures
        mal_merged(*old(anime), first, details, *final(anime)),
{
    anime.mal_id = opt_string(first.id);
    anime.details.rating = first.rating;
    if let Some(d) = details {
        anime.details.released = d.released;
        if anime.details.cover_url.as_str().is_empty() {
            anime.details.cover_url = d.cover_url;
        }
        let current_title = opt_string(anime.details.title.clone());
        if current_title.as_str().is_empty() {
            anime.details.title = d.title.clone();
            anime.title = opt_string(d.title);
        }
    }
}

/// A series with the first search result of the schedule source taken into it.
pub open spec fn schedule_merged(a0: Anime, first: AnimeDetails, a1: Anime) -> bool {
    &&& a1.schedule_id@ == opt_text(first.id)
    &&& a1 == (Anime {
        schedule_id: a1.schedule_id,
        details: AnimeDetails { new_ep: first.new_ep, ..a0.details },
        ..a0
    })
}

/// Take into a series the first search result of the schedule source.
pub fn merge_schedule(anime: &mut Anime, first: AnimeDetails)
    ensures
        schedule_merged(*old(anime), first, *final(anime)),
{
    anime.details.new_ep = first.new_ep;
    anime.schedule_id = opt_string(first.id);
}

/// The new series to store, stamped with `now`, when the first source gave
/// it a title; otherwise why nothing is stored.
pub fn new_anime_result(anime: Anime, title: &str, now: i64) -> (r: Result<Anime, CacheResult>)
    ensures
        title@.len() > 0 ==> r == Ok::<Anime, CacheResult>(Anime { last_updated: now, ..anime }),
        title@.len() == 0 ==> (r matches Err(e) && e.is_error && e.reason@ == "No data collected"@),
{
    if !title.is_empty() {
        let mut a = anime;
        a.last_updated = now;
        Ok(a)
    } else {
        Err(CacheResult::new("No data collected", true))
    }
}

/// What caching a series does next.
pub enum CacheStep {
    /// The series is not stored yet: gather it.
    Create,
    /// The stored series is older than the countdown: refresh it.
    Update,
    /// The stored series is fresh: leave it.
    Cooldown(CacheResult),
}

/// The next caching step for a series last stored at `stored` (`None`
/// when it is not stored), at time `now`, with a countdown in seconds.
pub fn cache_anime_step(stored: Option<i64>, now: i64, countdown: i64) -> (r: CacheStep)
    requires
        stored matches Some(t) ==> i64::MIN <= now - t <= i64::MAX,
    ensures
        stored is None <==> r is Create,
        r is Update <==> (stored matches Some(t) && now - t > countdown),
        r matches CacheStep::Cooldown(c) ==> c.is_error && c.reason@ == "On cooldown."@,
{
    match stored {
        None => CacheStep::Create,
        Some(t) => {
            if now - t > countdown {
                CacheStep::Update
            } else {
                CacheStep::Cooldown(CacheResult::new("On cooldown.", true))
            }
        },
    }
}

/// The series and details after refreshing the rating from the catalogue
/// source: from the details read by the stored catalogue id when there is
/// one (`by_id`), otherwise from the first search result, whose id is then
/// kept.
pub open spec fn mal_refreshed(
    c0: Anime,
    d0: AnimeDetails,
    by_id: Option<AnimeDetails>,
    search: Seq<AnimeDetails>,
    c1: Anime,
    d1: AnimeDetails,
) -> bool {
    if c0.mal_id@.len() > 0 {
        &&& c1 == c0
        &&& d1 == match by_id {
            Some(d) => AnimeDetails { rating: d.rating, ..d0 },
            None => d0,
        }
    } else if search.len() > 0 {
        &&& c1 == (Anime { mal_id: c1.mal_id, ..c0 })
        &&& c1.mal_id@ == opt_text(search[0].id)
        &&& d1 == (AnimeDetails { rating: search[0].rating, ..d0 })
    } else {
        c1 == c0 && d1 == d0
    }
}

/// Refresh the rating from the catalogue source.
pub fn refresh_from_mal(
    current: &mut Anime,
    details: &mut AnimeDetails,
    by_id: Option<AnimeDetails>,
    search: Vec<AnimeDetails>,
)
    ensures
        mal_refreshed(*old(current), *old(details), by_id, search@, *final(current), *final(details)),
{
    if !current.mal_id.as_str().is_empty() {
        if let Some(d) = by_id {
            details.rating = d.rating;
        }
    } else if search.len() > 0 {
        let mut search = search;
        let first = search.remove(0);
        current.mal_id = opt_string(first.id);
        details.rating = first.rating;
    }
}

/// The series and details after refreshing the next-episode time from the
/// schedule source: from the details read by the stored schedule id when
/// there is one (`by_id`), otherwise from the first search result, whose id
/// is then kept.
pub open spec fn schedule_refreshed(
    c0: Anime,
    d0: AnimeDetails,
    by_id: Option<AnimeDetails>,
    search: Seq<AnimeDetails>,
    c1: Anime,
    d1: AnimeDetails,
) -> bool {
    if c0.schedule_id@.len() > 0 {
        &&& c1 == c0
        &&& d1 == match by_id {
            Some(d) => AnimeDetails { new_ep: d.new_ep, ..d0 },
            None => d0,
        }
    } else if search.len() > 0 {
        &&& c1 == (Anime { schedule_id: c1.schedule_id, ..c0 })
        &&& c1.schedule_id@ == opt_text(search[0].id)
        &&& d1 == (AnimeDetails { new_ep: search[0].new_ep, ..d0 })
    } else {
        c1 == c0 && d1 == d0
    }
}

/// Refresh the next-episode time from the schedule source.
pub fn refresh_from_schedule(
    current: &mut Anime,
    details: &mut AnimeDetails,
    by_id: Option<AnimeDetails>,
    search: Vec<AnimeDetails>,
)
    ensures
        schedule_refreshed(*old(current), *old(details), by_id, search@, *final(current), *final(details)),
{
    if !current.schedule_id.as_str().is_empty() {
        if let Some(d) = by_id {
            details.new_ep = d.new_ep;
        }
    } else if search.len() > 0 {
        let mut search = search;
        let first = search.remove(0);
        current.schedule_id = opt_string(first.id);
        details.new_ep = first.new_ep;
    }
}

/// Whether the search results on the second source give a match for a
/// series of `episodes` episodes.
pub open spec fn has_match(search: Seq<AnimeDetails>, episodes: u32) -> bool {
    exists|i: int| 0 <= i < search.len() && count_close(#[trigger] search[i].episodes, episodes)
}

/// The first search result on the second source that matches a series of
/// `episodes` episodes.
pub open spec fn first_match(search: Seq<AnimeDetails>, episodes: u32) -> int {
    choose|i: int|
        0 <= i < search.len() && count_close(#[trigger] search[i].episodes, episodes) && forall|k: int|
            0 <= k < i ==> !count_close(#[trigger] search[k].episodes, episodes)
}

/// The series after looking up its id on the second source: when it has
/// none yet, the id of the first search result whose episode count is close
/// to `episodes`.
pub open spec fn animegg_refreshed(c0: Anime, episodes: u32, search: Seq<AnimeDetails>, c1: Anime) -> bool {
    if c0.animegg_id@.len() == 0 && has_match(search, episodes) {
        &&& c1.animegg_id@ == opt_text(search[first_match(search, episodes)].id)
        &&& c1 == (Anime { animegg_id: c1.animegg_id, ..c0 })
    } else {
        c1 == c0
    }
}

/// Look up the id of a stored series on the second source.
pub fn refresh_animegg_id(current: &mut Anime, episodes: u32, search: Vec<AnimeDetails>)
    ensures
        animegg_refreshed(*old(current), episodes, search@, *final(current)),
{
    if current.animegg_id.as_str().is_empty() {
        match find_animegg_match(&search, episodes) {
            Some(i) => {
                let ghost s0 = search@;
                let mut search = search;
                let found = search.remove(i);
                proof {
                    let j = choose|j: int|
                        0 <= j < s0.len() && count_close(#[trigger] s0[j].episodes, episodes) && forall|k: int|
                            0 <= k < j ==> !count_close(#[trigger] s0[k].episodes, episodes);
                    if j < i {
                        assert(!count_close(s0[j].episodes, episodes));
                    } else if i < j {
                        assert(!count_close(s0[i as int].episodes, episodes));
                    }
                }
                current.animegg_id = opt_string(found.id);
            },
            None => {},
        }
    }
}

/// The details after a refresh of the episode count: the count the first
/// source now gives, when its page could be read.
pub open spec fn counted(d0: AnimeDetails, gogo: Option<AnimeDetails>) -> AnimeDetails {
    match gogo {
        Some(g) => AnimeDetails { episodes: g.episodes, ..d0 },
        None => d0,
    }
}

/// Refresh the episode count from the first source.
pub fn refresh_episode_count(details: &mut AnimeDetails, gogo: Option<AnimeDetails>)
    ensures
        *final(details) == counted(*old(details), gogo),
{
    if let Some(g) = gogo {
        details.episodes = g.episodes;
    }
}

/// How many episodes a stored series lacks: `Some` when the sources now
/// count more than the stored count.
pub fn missing_episode_count(stored: u32, now: u32) -> (r: Option<usize>)
    ensures
        stored < now ==> r == Some((now - stored) as usize),
        stored >= now ==> r is None,
{
    if stored < now {
        Some((now - stored) as usize)
    } else {
        None
    }
}

/// The last `n` entries of a list (all of it when it is shorter).
pub open spec fn last_n(list: Seq<String>, n: nat) -> Seq<String> {
    if n < list.len() {
        list.skip(list.len() - n)
    } else {
        list
    }
}

/// The last `n` entries of an episode path list.
pub fn keep_last(list: Vec<String>, n: usize) -> (r: Vec<String>)
    ensures
        r@ == last_n(list@, n as nat),
{
    if n < list.len() {
        let ghost l0 = list@;
        let mut list = list;
        let at = list.len() - n;
        let tail = list.split_off(at);
        assert(tail@ =~= l0.skip(at as int));
        tail
    } else {
        list
    }
}

/// An episode to add to a stored series: its number and the episode paths
/// to read its streams from on each source.
#[derive(Debug, Clone)]
pub struct EpisodeRequest {
    pub num: String,
    pub gogo_path: Option<String>,
    pub animegg_path: Option<String>,
}

/// How many new episodes a list of `len` paths yields: all but the last,
/// and one when there is a single path.
pub open spec fn request_count(len: nat) -> nat {
    if len == 1 {
        1
    } else {
        (len - 1) as nat
    }
}

/// The new episodes of a stored series, from the paths of its missing
/// episodes on the first source (`gogo`) and on the second (`animegg`). The
/// longer list leads; when the second leads, its paths stand for both.
pub open spec fn requests_for(gogo: Seq<String>, animegg: Seq<String>, r: Seq<EpisodeRequest>) -> bool {
    &&& gogo.len() >= animegg.len() ==> {
        &&& r.len() == request_count(gogo.len())
        &&& forall|i: int|
            0 <= i < r.len() ==> {
                &&& (#[trigger] r[i]).num@ == episode_number_of(gogo[i]@)
                &&& opt_view(r[i].gogo_path) == Some(gogo[i]@)
                &&& opt_view(r[i].animegg_path) == if i < animegg.len() {
                    Some(animegg[i]@)
                } else {
                    None
                }
            }
    }
    &&& gogo.len() < animegg.len() ==> {
        &&& r.len() == request_count(animegg.len())
        &&& forall|i: int|
            0 <= i < r.len() ==> {
                &&& (#[trigger] r[i]).num@ == episode_number_of(animegg[i]@)
                &&& opt_view(r[i].animegg_path) == Some(animegg[i]@)
                &&& opt_view(r[i].gogo_path) == if i < gogo.len() {
                    Some(animegg[i]@)
                } else {
                    None
                }
            }
    }
}

/// The requests for the new episodes of a stored series.
pub fn new_episode_requests(gogo: &Vec<String>, animegg: &Vec<String>) -> (r: Vec<EpisodeRequest>)
    requires
        gogo@.len() > 0 || animegg@.len() > 0,
    ensures
        requests_for(gogo@, animegg@, r@),
{
    let lead_gogo = gogo.len() >= animegg.len();
    let len = if lead_gogo {
        gogo.len()
    } else {
        animegg.len()
    };
    let end = if len == 1 {
        1
    } else {
        len - 1
    };
    let mut out: Vec<EpisodeRequest> = Vec::new();
    let mut i: usize = 0;
    while i < end
        invariant
            0 <= i <= end,
            end == request_count(len as nat),
            end <= len,
            lead_gogo == (gogo@.len() >= animegg@.len()),
            len == if lead_gogo {
                gogo@.len()
            } else {
                animegg@.len()
            },
            out@.len() == i,
            lead_gogo ==> forall|k: int|
                0 <= k < i ==> {
                    &&& (#[trigger] out@[k]).num@ == episode_number_of(gogo@[k]@)
                    &&& opt_view(out@[k].gogo_path) == Some(gogo@[k]@)
                    &&& opt_view(out@[k].animegg_path) == if k < animegg@.len() {
                        Some(animegg@[k]@)
                    } else {
                        None
                    }
                },
            !lead_gogo ==> forall|k: int|
                0 <= k < i ==> {
                    &&& (#[trigger] out@[k]).num@ == episode_number_of(animegg@[k]@)
                    &&& opt_view(out@[k].animegg_path) == Some(animegg@[k]@)
                    &&& opt_view(out@[k].gogo_path) == if k < gogo@.len() {
                        Some(animegg@[k]@)
                    } else {
                        None
                    }
                },
        decreases end - i,
    {
        if lead_gogo {
            let other = if i < animegg.len() {
                Some(animegg[i].clone())
            } else {
                None
            };
            out.push(
                EpisodeRequest {
                    num: episode_number(gogo[i].as_str()),
                    gogo_path: Some(gogo[i].clone()),
                    animegg_path: other,
                },
            );
        } else {
            let other = if i < gogo.len() {
                Some(animegg[i].clone())
            } else {
                None
            };
            out.push(
                EpisodeRequest {
                    num: episode_number(animegg[i].as_str()),
                    gogo_path: other,
                    animegg_path: Some(animegg[i].clone()),
                },
            );
        }
        i = i + 1;
    }
    out
}

/// The new episode a request yields, with the stream addresses read for it
/// (`None` where the path was not read or the page gave none).
pub fn episode_from_request(req: EpisodeRequest, gogo_url: Option<String>, animegg_url: Option<String>) -> (e: Episode)
    ensures
        e.num == req.num,
        e.gogoanime_url@ == opt_text(gogo_url),
        e.animegg_url@ == opt_text(animegg_url),
{
    Episode { num: req.num, gogoanime_url: opt_string(gogo_url), animegg_url: opt_string(animegg_url) }
}

} // verus!
