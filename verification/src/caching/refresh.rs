//! Refreshing a stored series, one request at a time: each step takes what
//! the last request gave and says what to request next, until the refreshed
//! series is ready to be stored.
use vstd::prelude::*;
use crate::caching::cache_anime::{
    animegg_refreshed, counted, episode_from_request, keep_last, last_n, mal_refreshed,
    new_episode_requests, opt_text, refresh_animegg_id, refresh_episode_count, refresh_from_mal,
    refresh_from_schedule, requests_for, schedule_refreshed, EpisodeRequest,
};
use crate::scrapers::anime_schedule;
use crate::scrapers::animegg;
use crate::scrapers::common::url_encoded;
use crate::scrapers::gogoanime;
use crate::scrapers::mal;
use crate::scrapers::mal::anime_search::sent_query;
use crate::text::{replaced, trim};
use crate::utils::types::{Anime, AnimeDetails, Episode, ScraperError};

verus! {

broadcast use vstd::string::group_string_axioms;

/// The addresses of the source sites.
pub struct Sites {
    pub gogo: String,
    pub gogo_ajax: String,
    pub animegg: String,
    pub mal: String,
    pub schedule: String,
}

/// Where a refresh stands: what it waits for.
#[derive(Debug, Clone, Copy, PartialEq, Eq, Structural)]
pub enum RefreshStage {
    /// The series on the catalogue site (its page, or a search).
    Mal,
    /// The series on the schedule site (its page, or a search).
    Schedule,
    /// A search on the second streaming site.
    Animegg,
    /// The series page on the first streaming site.
    Gogo,
    /// The episode list on the first streaming site.
    GogoList,
    /// The series page on the second streaming site, for its episode links.
    AnimeggList,
    /// The episode page of the next new episode on the first site.
    GogoStream,
    /// The episode page of the next new episode on the second site.
    AnimeggStream,
    /// Nothing: the refreshed series is ready to be stored.
    Done,
    /// Nothing: the refresh cannot go on.
    Failed,
}

/// What a request of a refresh reads, and how its answer is to be read.
pub enum Source {
    /// The series page with this id on the catalogue site.
    MalDetails(String),
    MalSearch,
    /// The series page with this id on the schedule site.
    ScheduleDetails(String),
    ScheduleSearch,
    AnimeggSearch,
    GogoDetails,
    GogoEpisodes,
    AnimeggEpisodes,
    GogoStream,
    AnimeggStream,
}

/// What a request gave, as read by the library's scraper for its source.
pub enum Answer {
    Details(Result<AnimeDetails, ScraperError>),
    Search(Result<Vec<AnimeDetails>, ScraperError>),
    Episodes(Vec<String>),
    Stream(Result<String, ScraperError>),
}

/// What a refresh asks for next.
pub enum RefreshAction {
    /// Request the page at this address and read it as the source says.
    Fetch(Source, String),
    /// Store the refreshed series.
    Store,
    /// Give up: the answer did not fit, or the refresh cannot go on.
    Abort,
}

/// A refresh of the stored series `id`.
pub struct Refresh {
    pub id: String,
    pub sites: Sites,
    /// The stored series, with its ids as refreshed so far (its details and
    /// episodes are held apart).
    pub current: Anime,
    /// The details as refreshed so far.
    pub details: AnimeDetails,
    /// The episodes, with the new ones read so far.
    pub episodes: Vec<Episode>,
    /// The stored episode count.
    pub stored_count: u32,
    pub stage: RefreshStage,
    /// How many episodes the series lacks.
    pub missing: usize,
    /// The paths of the missing episodes on the first site.
    pub gogo_list: Vec<String>,
    /// The new episodes to read.
    pub requests: Vec<EpisodeRequest>,
    /// The next new episode to read.
    pub next: usize,
    /// The stream address read for it on the first site, when read.
    pub gogo_url: Option<String>,
}

/// The details a request gave, when it could be read.
pub open spec fn read_details(r: Result<AnimeDetails, ScraperError>) -> Option<AnimeDetails> {
    match r {
        Ok(d) => Some(d),
        Err(_) => None,
    }
}

/// The search results a request gave (none when it could not be read).
pub open spec fn read_results(r: Result<Vec<AnimeDetails>, ScraperError>) -> Seq<AnimeDetails> {
    match r {
        Ok(v) => v@,
        Err(_) => Seq::empty(),
    }
}

/// The stream address a request gave (empty when it could not be read).
pub open spec fn read_stream(r: Result<String, ScraperError>) -> Seq<char> {
    match r {
        Ok(u) => u@,
        Err(_) => Seq::empty(),
    }
}

/// Where a refresh goes once the new episodes before `next` are read.
pub open spec fn stream_stage(reqs: Seq<EpisodeRequest>, next: int) -> RefreshStage {
    if next >= reqs.len() {
        RefreshStage::Done
    } else if reqs[next].gogo_path is Some {
        RefreshStage::GogoStream
    } else if reqs[next].animegg_path is Some {
        RefreshStage::AnimeggStream
    } else {
        RefreshStage::Failed
    }
}

/// The request a refresh in state `s` makes.
pub open spec fn asks(s: Refresh, a: RefreshAction) -> bool {
    match s.stage {
        RefreshStage::Mal => if s.current.mal_id@.len() > 0 {
            a matches RefreshAction::Fetch(Source::MalDetails(i), u) && i@ == s.current.mal_id@ && u@
                == s.sites.mal@ + "anime/"@ + s.current.mal_id@
        } else {
            a matches RefreshAction::Fetch(Source::MalSearch, u) && u@ == s.sites.mal@
                + "anime.php?cat=anime&q="@ + sent_query(s.current.title@)
        },
        RefreshStage::Schedule => if s.current.schedule_id@.len() > 0 {
            a matches RefreshAction::Fetch(Source::ScheduleDetails(i), u) && i@ == s.current.schedule_id@
                && u@ == s.sites.schedule@ + "anime/"@ + s.current.schedule_id@
        } else {
            a matches RefreshAction::Fetch(Source::ScheduleSearch, u) && u@ == s.sites.schedule@
                + "shows?mt=all&st=search&q="@ + replaced(s.current.title@, " "@, "+"@)
        },
        RefreshStage::Animegg => a matches RefreshAction::Fetch(Source::AnimeggSearch, u) && u@
            == s.sites.animegg@ + "search/?q="@ + url_encoded(trim(s.current.title@)),
        RefreshStage::Gogo => a matches RefreshAction::Fetch(Source::GogoDetails, u) && u@ == s.sites.gogo@
            + "category/"@ + s.current.gogo_id@,
        RefreshStage::GogoList => a matches RefreshAction::Fetch(Source::GogoEpisodes, u) && u@
            == s.sites.gogo_ajax@ + "load-list-episode?ep_start=0&ep_end=999999&id="@ + opt_text(
            s.details.movie_id,
        ),
        RefreshStage::AnimeggList => a matches RefreshAction::Fetch(Source::AnimeggEpisodes, u) && u@
            == s.sites.animegg@ + "series/"@ + s.current.animegg_id@,
        RefreshStage::GogoStream => if 0 <= s.next < s.requests@.len() {
            a matches RefreshAction::Fetch(Source::GogoStream, u) && u@ == s.sites.gogo@ + opt_text(
                s.requests@[s.next as int].gogo_path,
            )
        } else {
            a is Abort
        },
        RefreshStage::AnimeggStream => if 0 <= s.next < s.requests@.len() {
            a matches RefreshAction::Fetch(Source::AnimeggStream, u) && u@ == s.sites.animegg@ + opt_text(
                s.requests@[s.next as int].animegg_path,
            )
        } else {
            a is Abort
        },
        RefreshStage::Done => a is Store,
        RefreshStage::Failed => a is Abort,
    }
}

/// Whether a refresh in state `s` takes the answer `e`: an answer of the
/// kind it waits for.
pub open spec fn takes(s: Refresh, e: Answer) -> bool {
    match s.stage {
        RefreshStage::Mal => if s.current.mal_id@.len() > 0 {
            e is Details
        } else {
            e is Search
        },
        RefreshStage::Schedule => if s.current.schedule_id@.len() > 0 {
            e is Details
        } else {
            e is Search
        },
        RefreshStage::Animegg => e is Search,
        RefreshStage::Gogo => e is Details,
        RefreshStage::GogoList => e is Episodes,
        RefreshStage::AnimeggList => e is Episodes,
        RefreshStage::GogoStream => e is Stream && 0 <= s.next < s.requests@.len(),
        RefreshStage::AnimeggStream => e is Stream && 0 <= s.next < s.requests@.len(),
        RefreshStage::Done => false,
        RefreshStage::Failed => false,
    }
}

/// The new episode read last: the request's number, with the addresses read.
pub open spec fn episode_read(req: EpisodeRequest, gogo: Option<Seq<char>>, animegg: Option<Seq<char>>, e: Episode) -> bool {
    &&& e.num == req.num
    &&& e.gogoanime_url@ == match gogo {
        Some(u) => u,
        None => Seq::empty(),
    }
    &&& e.animegg_url@ == match animegg {
        Some(u) => u,
        None => Seq::empty(),
    }
}

/// The state after a new episode is read: it is added, and the refresh
/// goes on with the next one.
pub open spec fn episode_added(s0: Refresh, gogo: Option<Seq<char>>, animegg: Option<Seq<char>>, s1: Refresh) -> bool {
    &&& s1.episodes@.len() == s0.episodes@.len() + 1
    &&& s1.episodes@.drop_last() == s0.episodes@
    &&& episode_read(s0.requests@[s0.next as int], gogo, animegg, s1.episodes@.last())
    &&& s1.next == s0.next + 1
    &&& s1.gogo_url is None
    &&& s1.stage == stream_stage(s0.requests@, s0.next + 1)
    &&& s1 == (Refresh { episodes: s1.episodes, next: s1.next, gogo_url: s1.gogo_url, stage: s1.stage, ..s0 })
}

/// The state a refresh in state `s0` moves to when it takes the answer `e`.
pub open spec fn stepped(s0: Refresh, e: Answer, s1: Refresh) -> bool {
    match s0.stage {
        RefreshStage::Mal => {
            let (by_id, search) = match e {
                Answer::Details(r) => (read_details(r), Seq::empty()),
                Answer::Search(r) => (None, read_results(r)),
                _ => (None, Seq::empty()),
            };
            &&& mal_refreshed(s0.current, s0.details, by_id, search, s1.current, s1.details)
            &&& s1 == (Refresh { current: s1.current, details: s1.details, stage: RefreshStage::Schedule, ..s0 })
        },
        RefreshStage::Schedule => {
            let (by_id, search) = match e {
                Answer::Details(r) => (read_details(r), Seq::empty()),
                Answer::Search(r) => (None, read_results(r)),
                _ => (None, Seq::empty()),
            };
            &&& schedule_refreshed(s0.current, s0.details, by_id, search, s1.current, s1.details)
            &&& s1 == (Refresh {
                current: s1.current,
                details: s1.details,
                stage: if s1.current.animegg_id@.len() == 0 {
                    RefreshStage::Animegg
                } else {
                    RefreshStage::Gogo
                },
                ..s0
            })
        },
        RefreshStage::Animegg => {
            let search = match e {
                Answer::Search(r) => read_results(r),
                _ => Seq::empty(),
            };
            &&& animegg_refreshed(s0.current, s0.details.episodes, search, s1.current)
            &&& s1 == (Refresh { current: s1.current, stage: RefreshStage::Gogo, ..s0 })
        },
        RefreshStage::Gogo => {
            let gogo = match e {
                Answer::Details(r) => read_details(r),
                _ => None,
            };
            let d = counted(s0.details, gogo);
            &&& s1.details == d
            &&& s1 == if s0.stored_count < d.episodes {
                Refresh {
                    details: s1.details,
                    missing: (d.episodes - s0.stored_count) as usize,
                    stage: RefreshStage::GogoList,
                    ..s0
                }
            } else {
                Refresh { details: s1.details, stage: RefreshStage::Done, ..s0 }
            }
        },
        RefreshStage::GogoList => {
            let list = match e {
                Answer::Episodes(v) => v@,
                _ => Seq::empty(),
            };
            &&& s1.gogo_list@ == last_n(list, s0.missing as nat)
            &&& s1 == (Refresh { gogo_list: s1.gogo_list, stage: RefreshStage::AnimeggList, ..s0 })
        },
        RefreshStage::AnimeggList => {
            let egg = last_n(
                match e {
                    Answer::Episodes(v) => v@,
                    _ => Seq::empty(),
                },
                s0.missing as nat,
            );
            if s0.gogo_list@.len() == 0 && egg.len() == 0 {
                s1 == (Refresh { stage: RefreshStage::Failed, ..s0 })
            } else {
                &&& requests_for(s0.gogo_list@, egg, s1.requests@)
                &&& s1 == (Refresh {
                    requests: s1.requests,
                    next: 0,
                    gogo_url: None,
                    stage: stream_stage(s1.requests@, 0),
                    ..s0
                })
            }
        },
        RefreshStage::GogoStream => {
            let url = match e {
                Answer::Stream(r) => read_stream(r),
                _ => Seq::empty(),
            };
            if s0.requests@[s0.next as int].animegg_path is Some {
                &&& s1.gogo_url matches Some(u) && u@ == url
                &&& s1 == (Refresh { gogo_url: s1.gogo_url, stage: RefreshStage::AnimeggStream, ..s0 })
            } else {
                episode_added(s0, Some(url), None, s1)
            }
        },
        RefreshStage::AnimeggStream => {
            let url = match e {
                Answer::Stream(r) => read_stream(r),
                _ => Seq::empty(),
            };
            let gogo = match s0.gogo_url {
                Some(u) => Some(u@),
                None => None,
            };
            episode_added(s0, gogo, Some(url), s1)
        },
        RefreshStage::Done => s1 == s0,
        RefreshStage::Failed => s1 == s0,
    }
}

impl Refresh {
    /// The request that `self` makes next.
    pub fn action(&self) -> (a: RefreshAction)
        ensures
            asks(*self, a),
    {
        proof {
            reveal_strlit("anime/");
        }
        match self.stage {
            RefreshStage::Mal => if !self.current.mal_id.as_str().is_empty() {
                RefreshAction::Fetch(
                    Source::MalDetails(self.current.mal_id.clone()),
                    mal::anime_details::details_url(self.sites.mal.as_str(), self.current.mal_id.as_str()),
                )
            } else {
                RefreshAction::Fetch(
                    Source::MalSearch,
                    mal::anime_search::search_url(self.sites.mal.as_str(), self.current.title.as_str()),
                )
            },
            RefreshStage::Schedule => if !self.current.schedule_id.as_str().is_empty() {
                RefreshAction::Fetch(
                    Source::ScheduleDetails(self.current.schedule_id.clone()),
                    anime_schedule::anime_details::details_url(
                        self.sites.schedule.as_str(),
                        self.current.schedule_id.as_str(),
                    ),
                )
            } else {
                RefreshAction::Fetch(
                    Source::ScheduleSearch,
                    anime_schedule::anime_search::search_url(
                        self.sites.schedule.as_str(),
                        self.current.title.as_str(),
                    ),
                )
            },
            RefreshStage::Animegg => RefreshAction::Fetch(
                Source::AnimeggSearch,
                animegg::anime_search::search_url(self.sites.animegg.as_str(), self.current.title.as_str()),
            ),
            RefreshStage::Gogo => RefreshAction::Fetch(
                Source::GogoDetails,
                gogoanime::anime_details::details_url(self.sites.gogo.as_str(), self.current.gogo_id.as_str()),
            ),
            RefreshStage::GogoList => {
                let movie_id = crate::caching::cache_anime::opt_string(self.details.movie_id.clone());
                RefreshAction::Fetch(
                    Source::GogoEpisodes,
                    gogoanime::anime_details::episodes_url(self.sites.gogo_ajax.as_str(), movie_id.as_str()),
                )
            },
            RefreshStage::AnimeggList => RefreshAction::Fetch(
                Source::AnimeggEpisodes,
                animegg::anime_details::details_url(
                    self.sites.animegg.as_str(),
                    self.current.animegg_id.as_str(),
                ),
            ),
            RefreshStage::GogoStream => {
                if self.next < self.requests.len() {
                    let path = crate::caching::cache_anime::opt_string(self.requests[self.next].gogo_path.clone());
                    RefreshAction::Fetch(
                        Source::GogoStream,
                        gogoanime::anime_stream::stream_url(self.sites.gogo.as_str(), path.as_str()),
                    )
                } else {
                    RefreshAction::Abort
                }
            },
            RefreshStage::AnimeggStream => {
                if self.next < self.requests.len() {
                    let path = crate::caching::cache_anime::opt_string(
                        self.requests[self.next].animegg_path.clone(),
                    );
                    RefreshAction::Fetch(
                        Source::AnimeggStream,
                        animegg::anime_stream::stream_url(self.sites.animegg.as_str(), path.as_str()),
                    )
                } else {
                    RefreshAction::Abort
                }
            },
            RefreshStage::Done => RefreshAction::Store,
            RefreshStage::Failed => RefreshAction::Abort,
        }
    }
}

fn details_read(r: Result<AnimeDetails, ScraperError>) -> (d: Option<AnimeDetails>)
    ensures
        d == read_details(r),
{
    match r {
        Ok(d) => Some(d),
        Err(_) => None,
    }
}

fn results_read(r: Result<Vec<AnimeDetails>, ScraperError>) -> (v: Vec<AnimeDetails>)
    ensures
        v@ == read_results(r),
{
    match r {
        Ok(v) => v,
        Err(_) => Vec::new(),
    }
}

fn stream_read(r: Result<String, ScraperError>) -> (u: String)
    ensures
        u@ == read_stream(r),
{
    match r {
        Ok(u) => u,
        Err(_) => String::new(),
    }
}

fn stage_after(reqs: &Vec<EpisodeRequest>, next: usize) -> (r: RefreshStage)
    ensures
        r == stream_stage(reqs@, next as int),
{
    if next >= reqs.len() {
        RefreshStage::Done
    } else if reqs[next].gogo_path.is_some() {
        RefreshStage::GogoStream
    } else if reqs[next].animegg_path.is_some() {
        RefreshStage::AnimeggStream
    } else {
        RefreshStage::Failed
    }
}

fn copy_request(r: &EpisodeRequest) -> (c: EpisodeRequest)
    ensures
        c == *r,
{
    EpisodeRequest { num: r.num.clone(), gogo_path: r.gogo_path.clone(), animegg_path: r.animegg_path.clone() }
}

impl Refresh {
    /// Start refreshing the stored series `stored`, kept under the catalogue id `id`.
    pub fn start(id: &str, stored: Anime, sites: Sites) -> (r: (Refresh, RefreshAction))
        ensures
            r.0.id@ == id@,
            r.0.sites == sites,
            r.0.details == stored.details,
            r.0.episodes == stored.episodes,
            r.0.stored_count == stored.details.episodes,
            r.0.current == (Anime { details: r.0.current.details, episodes: r.0.current.episodes, ..stored }),
            r.0.stage == RefreshStage::Mal,
            r.0.missing == 0,
            r.0.gogo_list@.len() == 0,
            r.0.requests@.len() == 0,
            r.0.next == 0,
            r.0.gogo_url is None,
            asks(r.0, r.1),
    {
        let mut current = stored;
        let mut details = AnimeDetails::new();
        std::mem::swap(&mut details, &mut current.details);
        let mut episodes: Vec<Episode> = Vec::new();
        std::mem::swap(&mut episodes, &mut current.episodes);
        let stored_count = details.episodes;
        let r = Refresh {
            id: id.to_string(),
            sites,
            current,
            details,
            episodes,
            stored_count,
            stage: RefreshStage::Mal,
            missing: 0,
            gogo_list: Vec::new(),
            requests: Vec::new(),
            next: 0,
            gogo_url: None,
        };
        let a = r.action();
        (r, a)
    }

    /// Whether `self` takes the answer `e`.
    pub fn takes(&self, e: &Answer) -> (r: bool)
        ensures
            r == takes(*self, *e),
    {
        match self.stage {
            RefreshStage::Mal => if !self.current.mal_id.as_str().is_empty() {
                matches!(e, Answer::Details(_))
            } else {
                matches!(e, Answer::Search(_))
            },
            RefreshStage::Schedule => if !self.current.schedule_id.as_str().is_empty() {
                matches!(e, Answer::Details(_))
            } else {
                matches!(e, Answer::Search(_))
            },
            RefreshStage::Animegg => matches!(e, Answer::Search(_)),
            RefreshStage::Gogo => matches!(e, Answer::Details(_)),
            RefreshStage::GogoList => matches!(e, Answer::Episodes(_)),
            RefreshStage::AnimeggList => matches!(e, Answer::Episodes(_)),
            RefreshStage::GogoStream => matches!(e, Answer::Stream(_)) && self.next < self.requests.len(),
            RefreshStage::AnimeggStream => matches!(e, Answer::Stream(_)) && self.next < self.requests.len(),
            RefreshStage::Done => false,
            RefreshStage::Failed => false,
        }
    }

    /// Take the answer `e` to the last request and say what to do next; an
    /// answer of another kind than the one awaited is refused.
    pub fn step(&mut self, e: Answer) -> (a: RefreshAction)
        ensures
            !takes(*old(self), e) ==> *final(self) == *old(self) && a is Abort,
            takes(*old(self), e) ==> stepped(*old(self), e, *final(self)) && asks(*final(self), a),
    {
        if !self.takes(&e) {
            return RefreshAction::Abort;
        }
        match self.stage {
            RefreshStage::Mal => {
                let (by_id, search) = match e {
                    Answer::Details(r) => (details_read(r), Vec::new()),
                    Answer::Search(r) => (None, results_read(r)),
                    _ => (None, Vec::new()),
                };
                refresh_from_mal(&mut self.current, &mut self.details, by_id, search);
                self.stage = RefreshStage::Schedule;
            },
            RefreshStage::Schedule => {
                let (by_id, search) = match e {
                    Answer::Details(r) => (details_read(r), Vec::new()),
                    Answer::Search(r) => (None, results_read(r)),
                    _ => (None, Vec::new()),
                };
                refresh_from_schedule(&mut self.current, &mut self.details, by_id, search);
                self.stage = if self.current.animegg_id.as_str().is_empty() {
                    RefreshStage::Animegg
                } else {
                    RefreshStage::Gogo
                };
            },
            RefreshStage::Animegg => {
                let search = match e {
                    Answer::Search(r) => results_read(r),
                    _ => Vec::new(),
                };
                let count = self.details.episodes;
                refresh_animegg_id(&mut self.current, count, search);
                self.stage = RefreshStage::Gogo;
            },
            RefreshStage::Gogo => {
                let gogo = match e {
                    Answer::Details(r) => details_read(r),
                    _ => None,
                };
                refresh_episode_count(&mut self.details, gogo);
                if self.stored_count < self.details.episodes {
                    self.missing = (self.details.episodes - self.stored_count) as usize;
                    self.stage = RefreshStage::GogoList;
                } else {
                    self.stage = RefreshStage::Done;
                }
            },
            RefreshStage::GogoList => {
                let list = match e {
                    Answer::Episodes(v) => v,
                    _ => Vec::new(),
                };
                self.gogo_list = keep_last(list, self.missing);
                self.stage = RefreshStage::AnimeggList;
            },
            RefreshStage::AnimeggList => {
                let list = match e {
                    Answer::Episodes(v) => v,
                    _ => Vec::new(),
                };
                let egg = keep_last(list, self.missing);
                if self.gogo_list.len() == 0 && egg.len() == 0 {
                    self.stage = RefreshStage::Failed;
                } else {
                    self.requests = new_episode_requests(&self.gogo_list, &egg);
                    self.next = 0;
                    self.gogo_url = None;
                    self.stage = stage_after(&self.requests, 0);
                }
            },
            RefreshStage::GogoStream => {
                let url = match e {
                    Answer::Stream(r) => stream_read(r),
                    _ => String::new(),
                };
                if self.requests[self.next].animegg_path.is_some() {
                    self.gogo_url = Some(url);
                    self.stage = RefreshStage::AnimeggStream;
                } else {
                    let req = copy_request(&self.requests[self.next]);
                    let n = self.requests.len();
                    assert(self.next < n);
                    let ghost e0 = self.episodes@;
                    self.episodes.push(episode_from_request(req, Some(url), None));
                    assert(self.episodes@.drop_last() =~= e0);
                    self.next = self.next + 1;
                    self.gogo_url = None;
                    self.stage = stage_after(&self.requests, self.next);
                }
            },
            RefreshStage::AnimeggStream => {
                let url = match e {
                    Answer::Stream(r) => stream_read(r),
                    _ => String::new(),
                };
                let mut gogo: Option<String> = None;
                std::mem::swap(&mut gogo, &mut self.gogo_url);
                let req = copy_request(&self.requests[self.next]);
                let n = self.requests.len();
                assert(self.next < n);
                let ghost e0 = self.episodes@;
                self.episodes.push(episode_from_request(req, gogo, Some(url)));
                assert(self.episodes@.drop_last() =~= e0);
                self.next = self.next + 1;
                self.stage = stage_after(&self.requests, self.next);
            },
            RefreshStage::Done => {},
            RefreshStage::Failed => {},
        }
        self.action()
    }
}

/// How far along a refresh in a given stage is.
pub open spec fn stage_rank(st: RefreshStage) -> nat {
    match st {
        RefreshStage::Mal => 0,
        RefreshStage::Schedule => 1,
        RefreshStage::Animegg => 2,
        RefreshStage::Gogo => 3,
        RefreshStage::GogoList => 4,
        RefreshStage::AnimeggList => 5,
        RefreshStage::GogoStream => 6,
        RefreshStage::AnimeggStream => 6,
        RefreshStage::Done => 7,
        RefreshStage::Failed => 7,
    }
}

/// How many answers a refresh reading new episodes still needs, at most.
pub open spec fn answers_left(s: Refresh) -> int {
    2 * (s.requests@.len() - s.next) - if s.stage == RefreshStage::AnimeggStream {
        1int
    } else {
        0int
    }
}

/// Every answer a refresh takes moves it on: to a later stage, or, while it
/// reads new episodes, closer to the last of them; so a refresh ends after
/// finitely many requests.
pub proof fn law_refresh_progress(s0: Refresh, e: Answer, s1: Refresh)
    requires
        takes(s0, e),
        stepped(s0, e, s1),
    ensures
        stage_rank(s1.stage) > stage_rank(s0.stage) || (stage_rank(s1.stage) == stage_rank(s0.stage) == 6
            && 0 <= answers_left(s1) < answers_left(s0)),
{
}

/// A refresh never drops an episode: the stored episodes stay, in order,
/// and new ones are only added after them; the series keeps its catalogue
/// and first-site ids and its title, and an id it already has on the other
/// sites is never replaced.
pub proof fn law_refresh_keeps(s0: Refresh, e: Answer, s1: Refresh)
    requires
        stepped(s0, e, s1),
    ensures
        s0.episodes@.len() <= s1.episodes@.len(),
        s1.episodes@.take(s0.episodes@.len() as int) == s0.episodes@,
        s1.id == s0.id,
        s1.current.id == s0.current.id,
        s1.current.gogo_id == s0.current.gogo_id,
        s1.current.title == s0.current.title,
        s0.current.mal_id@.len() > 0 ==> s1.current.mal_id == s0.current.mal_id,
        s0.current.schedule_id@.len() > 0 ==> s1.current.schedule_id == s0.current.schedule_id,
        s0.current.animegg_id@.len() > 0 ==> s1.current.animegg_id == s0.current.animegg_id,
{
    if s1.episodes@.len() == s0.episodes@.len() + 1 && s1.episodes@.drop_last() == s0.episodes@ {
        assert(s1.episodes@.take(s0.episodes@.len() as int) =~= s1.episodes@.drop_last());
    } else {
        assert(s1.episodes@.take(s0.episodes@.len() as int) =~= s0.episodes@);
    }
}

} // verus!
