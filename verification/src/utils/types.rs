//! The records the library gathers, caches and serves.
use vstd::prelude::*;

verus! {

broadcast use vstd::string::group_string_axioms;

/// The home page of one day: the release schedule, the recent releases and
/// the popular series.
#[derive(Debug, Clone)]
pub struct Home {
    /// The day, written `day:month:year`.
    pub date: String,
    pub last_updated: i64,
    pub schedule: Vec<AnimeRelease>,
    pub recent: Vec<AnimeRelease>,
    pub popular: Vec<AnimeDetails>,
}

impl Home {
    /// An empty home page.
    pub fn new() -> (h: Home)
        ensures
            h.date@ == Seq::<char>::empty(),
            h.last_updated == 0,
            h.schedule@ == Seq::<AnimeRelease>::empty(),
            h.recent@ == Seq::<AnimeRelease>::empty(),
            h.popular@ == Seq::<AnimeDetails>::empty(),
    {
        Home {
            date: String::new(),
            last_updated: 0,
            schedule: Vec::new(),
            recent: Vec::new(),
            popular: Vec::new(),
        }
    }
}

/// A series as the catalogue stores it, with its id on every source site.
#[derive(Debug, Clone)]
pub struct Anime {
    pub title: String,
    /// The catalogue's own id.
    pub id: String,
    pub gogo_id: String,
    pub animegg_id: String,
    pub mal_id: String,
    pub schedule_id: String,
    pub details: AnimeDetails,
    pub episodes: Vec<Episode>,
    pub last_updated: i64,
}

impl Anime {
    /// A series with no data.
    pub fn new() -> (a: Anime)
        ensures
            a.title@ == Seq::<char>::empty(),
            a.id@ == Seq::<char>::empty(),
            a.gogo_id@ == Seq::<char>::empty(),
            a.animegg_id@ == Seq::<char>::empty(),
            a.mal_id@ == Seq::<char>::empty(),
            a.schedule_id@ == Seq::<char>::empty(),
            a.details.is_blank(),
            a.episodes@ == Seq::<Episode>::empty(),
            a.last_updated == 0,
    {
        Anime {
            title: String::new(),
            id: String::new(),
            gogo_id: String::new(),
            animegg_id: String::new(),
            mal_id: String::new(),
            schedule_id: String::new(),
            details: AnimeDetails::new(),
            episodes: Vec::new(),
            last_updated: 0,
        }
    }
}

/// What a source site tells about a series.
#[derive(Debug, Clone)]
pub struct AnimeDetails {
    pub id: Option<String>,
    pub title: Option<String>,
    pub released: Option<String>,
    /// The id that the episode-list service of the first source uses.
    pub movie_id: Option<String>,
    pub episodes: u32,
    pub other_names: Vec<String>,
    pub genres: Vec<String>,
    pub description: String,
    pub cover_url: String,
    pub rating: String,
    /// When the next episode airs, as a UNIX timestamp.
    pub new_ep: i64,
}

impl AnimeDetails {
    /// The details a fresh `AnimeDetails::new` holds.
    pub open spec fn is_blank(self) -> bool {
        &&& self.id is None
        &&& self.title is None
        &&& self.released is None
        &&& self.movie_id is None
        &&& self.episodes == 0
        &&& self.other_names@.len() == 0
        &&& self.genres@.len() == 0
        &&& self.description@ == Seq::<char>::empty()
        &&& self.cover_url@ == Seq::<char>::empty()
        &&& self.rating@ == Seq::<char>::empty()
        &&& self.new_ep == 0
    }

    /// Details with nothing known.
    pub fn new() -> (d: AnimeDetails)
        ensures
            d.is_blank(),
    {
        AnimeDetails {
            title: None,
            id: None,
            released: None,
            other_names: Vec::new(),
            genres: Vec::new(),
            movie_id: None,
            episodes: 0,
            description: String::new(),
            cover_url: String::new(),
            rating: String::new(),
            new_ep: 0,
        }
    }
}

/// An episode release, scheduled or out.
#[derive(Debug, Clone)]
pub struct AnimeRelease {
    pub id: Option<String>,
    pub title: Option<String>,
    pub episode_num: Option<String>,
    pub is_sub: bool,
    pub is_out: bool,
    pub cover_url: String,
    pub release_time: Option<i64>,
}

impl AnimeRelease {
    /// The release a fresh `AnimeRelease::new` holds.
    pub open spec fn is_blank(self) -> bool {
        &&& self.id is None
        &&& self.title is None
        &&& self.episode_num is None
        &&& !self.is_sub
        &&& !self.is_out
        &&& self.cover_url@ == Seq::<char>::empty()
        &&& self.release_time is None
    }

    /// A release with nothing known.
    pub fn new() -> (r: AnimeRelease)
        ensures
            r.is_blank(),
    {
        AnimeRelease {
            title: None,
            id: None,
            episode_num: None,
            is_sub: false,
            is_out: false,
            cover_url: String::new(),
            release_time: None,
        }
    }
}

/// One episode and where it streams on the two streaming sources.
#[derive(Debug, Clone)]
pub struct Episode {
    pub num: String,
    pub gogoanime_url: String,
    pub animegg_url: String,
}

/// The address an episode has while its stream is not known.
pub open spec fn error_url() -> Seq<char> {
    seq!['/', 'e', 'r', 'r', 'o', 'r']
}

impl Episode {
    /// An episode with no number and no stream.
    pub fn new() -> (e: Episode)
        ensures
            e.num@ == Seq::<char>::empty(),
            e.gogoanime_url@ == error_url(),
            e.animegg_url@ == error_url(),
    {
        let e = "/error";
        proof {
            reveal_strlit("/error");
        }
        Episode { num: String::new(), gogoanime_url: e.to_string(), animegg_url: e.to_string() }
    }
}

/// Why a scrape failed.
#[derive(Debug, Clone)]
pub struct ScraperError {
    pub reason: String,
}

/// The outcome of a caching step.
#[derive(Debug, Clone)]
pub struct CacheResult {
    pub reason: String,
    pub is_error: bool,
}

impl CacheResult {
    pub fn new(reason: &str, error: bool) -> (r: CacheResult)
        ensures
            r.reason@ == reason@,
            r.is_error == error,
    {
        CacheResult { reason: reason.to_string(), is_error: error }
    }
}

/// The site an id belongs to.
#[derive(Debug, Clone, Copy, PartialEq, Eq, Structural)]
pub enum IdType {
    KartofPlay,
    Gogoanime,
    AnimeGG,
    AnimeSchedule,
    MAL,
}

/// A cover image kept on disk.
#[derive(Debug, Clone)]
pub struct Image {
    pub id: String,
    pub data: Vec<u8>,
}

impl Image {
    pub fn new(id: &str, data: Vec<u8>) -> (i: Image)
        ensures
            i.id@ == id@,
            i.data@ == data@,
    {
        Image { id: id.to_string(), data }
    }
}

/// A stream address found for one episode, and when it was found.
#[derive(Debug, Clone)]
pub struct StreamUrlEpisode {
    pub url: String,
    pub saved_at: i64,
}

impl StreamUrlEpisode {
    pub fn new(url: &str, saved_at: i64) -> (e: StreamUrlEpisode)
        ensures
            e.url@ == url@,
            e.saved_at == saved_at,
    {
        StreamUrlEpisode { url: url.to_string(), saved_at }
    }

    pub open spec fn expired(self, now: int, max_age: int) -> bool {
        now - self.saved_at > max_age
    }

    /// Whether the address is older than `max_age` seconds at time `now`.
    pub fn is_expired(&self, now: i64, max_age: i64) -> (r: bool)
        ensures
            r == self.expired(now as int, max_age as int),
    {
        (now as i128) - (self.saved_at as i128) > max_age as i128
    }
}

/// The address a list keeps for episode `ep` (at index `ep - 1`), if it
/// covers that episode.
pub open spec fn ep_entry(eps: Seq<StreamUrlEpisode>, ep: int) -> Option<StreamUrlEpisode> {
    if 1 <= ep <= eps.len() {
        Some(eps[ep - 1])
    } else {
        None
    }
}

/// `after` is `before` with `url`, found at `now`, kept for episode `ep`.
pub open spec fn written(
    before: Seq<StreamUrlEpisode>,
    after: Seq<StreamUrlEpisode>,
    ep: int,
    url: Seq<char>,
    now: i64,
) -> bool {
    &&& after.len() == before.len()
    &&& 1 <= ep <= before.len()
    &&& after[ep - 1].url@ == url
    &&& after[ep - 1].saved_at == now
    &&& forall|k: int| 0 <= k < after.len() && k != ep - 1 ==> #[trigger] after[k] == before[k]
}

/// Reading an episode's address after it was written gives what was
/// written, and reading any other episode gives what it held before.
pub proof fn law_read_after_write(
    before: Seq<StreamUrlEpisode>,
    after: Seq<StreamUrlEpisode>,
    ep: int,
    url: Seq<char>,
    now: i64,
)
    requires
        written(before, after, ep, url, now),
    ensures
        ep_entry(after, ep) matches Some(e) && e.url@ == url && e.saved_at == now,
        forall|k: int| k != ep ==> #[trigger] ep_entry(after, k) == ep_entry(before, k),
{
    assert forall|k: int| k != ep implies #[trigger] ep_entry(after, k) == ep_entry(before, k) by {
        if 1 <= k <= after.len() {
            assert(after[k - 1] == before[k - 1]);
        }
    }
}

/// The stream addresses found for the episodes of one series; episode `n`
/// is at index `n - 1`.
#[derive(Debug, Clone)]
pub struct StreamUrl {
    pub id: String,
    pub episodes: Vec<StreamUrlEpisode>,
}

impl StreamUrl {
    /// A record for `ep_count` episodes, none of them with an address yet.
    pub fn new_ep_count(id: &str, ep_count: usize) -> (s: StreamUrl)
        ensures
            s.id@ == id@,
            s.episodes@.len() == ep_count,
            forall|i: int|
                0 <= i < ep_count ==> #[trigger] s.episodes@[i].url@ == Seq::<char>::empty()
                    && s.episodes@[i].saved_at == 0,
    {
        let mut episodes: Vec<StreamUrlEpisode> = Vec::new();
        let mut k: usize = 0;
        while k < ep_count
            invariant
                0 <= k <= ep_count,
                episodes@.len() == k,
                forall|i: int|
                    0 <= i < k ==> #[trigger] episodes@[i].url@ == Seq::<char>::empty()
                        && episodes@[i].saved_at == 0,
            decreases ep_count - k,
        {
            episodes.push(StreamUrlEpisode { url: String::new(), saved_at: 0 });
            k = k + 1;
        }
        StreamUrl { id: id.to_string(), episodes }
    }

    /// The address kept for episode `ep`, if the record covers it.
    pub open spec fn ep_url(self, ep: int) -> Option<StreamUrlEpisode> {
        ep_entry(self.episodes@, ep)
    }

    /// The address kept for episode `ep`, if the record covers it.
    pub fn get_ep_url(&self, ep: usize) -> (r: Option<StreamUrlEpisode>)
        ensures
            r == self.ep_url(ep as int),
    {
        if ep >= 1 && ep <= self.episodes.len() {
            let e = &self.episodes[ep - 1];
            Some(StreamUrlEpisode { url: e.url.clone(), saved_at: e.saved_at })
        } else {
            None
        }
    }

    /// Keep `url`, found at `now`, for episode `ep`.
    pub fn set_ep_url(&mut self, ep: usize, url: &str, now: i64)
        requires
            1 <= ep <= old(self).episodes@.len(),
        ensures
            final(self).id == old(self).id,
            written(old(self).episodes@, final(self).episodes@, ep as int, url@, now),
    {
        self.episodes.set(ep - 1, StreamUrlEpisode::new(url, now));
    }
}

} // verus!
