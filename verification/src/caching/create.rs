//! Gathering a new series, one request at a time: its page and episodes on
//! the first streaming site, its match on the second, then its data on the
//! catalogue and schedule sites.
use vstd::prelude::*;
use crate::caching::cache_anime::{
    animegg_merged, find_animegg_match, first_match, gogo_built, gogo_episodes, has_match,
    mal_merged, merge_animegg_details, merge_animegg_episodes, merge_mal, merge_schedule,
    new_anime_record, new_anime_result, opt_string, opt_text, record_of, schedule_merged,
    sort_episodes, sorted_from, animegg_streams_merged, count_close,
};
use crate::caching::refresh::{read_details, read_results, read_stream, Answer, Sites, Source};
use crate::scrapers::anime_schedule;
use crate::scrapers::animegg;
use crate::scrapers::common::url_encoded;
use crate::scrapers::gogoanime;
use crate::scrapers::mal;
use crate::scrapers::mal::anime_search::sent_query;
use crate::text::{replaced, trim};
use crate::utils::types::{Anime, AnimeDetails, CacheResult, Episode, ScraperError};

verus! {

broadcast use vstd::string::group_string_axioms;

/// Where the gathering of a new series stands: what it waits for.
#[derive(Debug, Clone, Copy, PartialEq, Eq, Structural)]
pub enum CreateStage {
    /// The series page on the first streaming site.
    GogoDetails,
    /// The episode list on the first streaming site.
    GogoList,
    /// The page of the next episode on the first streaming site.
    GogoStream,
    /// A search on the second streaming site.
    AnimeggSearch,
    /// The matching series page on the second streaming site.
    AnimeggList,
    /// The page of the next episode on the second streaming site.
    AnimeggStream,
    /// A search on the catalogue site.
    MalSearch,
    /// The page of the first catalogue search result.
    MalDetails,
    /// A search on the schedule site.
    ScheduleSearch,
    /// Nothing: the series is gathered.
    Done,
    /// Nothing: the first streaming site has no readable page for the id.
    Invalid,
}

/// What the gathering asks for next.
pub enum CreateAction {
    /// Request the page at this address and read it as the source says.
    Fetch(Source, String),
    /// Nothing more to request: finish.
    Finish,
    /// Give up: the answer was not of the kind awaited.
    Abort,
}

/// The gathering of a new series with the id `gogo_id` on the first
/// streaming site, to be stored under the catalogue id `id`.
pub struct Create {
    pub gogo_id: String,
    pub id: i64,
    pub sites: Sites,
    pub stage: CreateStage,
    /// The details the first site gave, until the record is made.
    pub gogo: AnimeDetails,
    /// The episode paths on the first site.
    pub paths: Vec<String>,
    /// The stream address read for each path so far (empty for an empty path).
    pub urls: Vec<String>,
    /// The series record, once made.
    pub record: Anime,
    /// The title the first site gave, which the searches use.
    pub title: String,
    /// The episode ids on the second site.
    pub egg_ids: Vec<String>,
    /// The stream address read for each of them so far.
    pub egg_urls: Vec<String>,
    /// The first search result of the catalogue site.
    pub mal_first: Option<AnimeDetails>,
}

/// The first non-empty path at or after `k` (the count of paths when none is).
pub open spec fn next_path(paths: Seq<String>, k: int) -> int
    decreases paths.len() - k,
{
    if k >= paths.len() {
        paths.len() as int
    } else if paths[k]@.len() > 0 {
        k
    } else {
        next_path(paths, k + 1)
    }
}

/// The request the gathering in state `s` makes.
pub open spec fn asks_create(s: Create, a: CreateAction) -> bool {
    match s.stage {
        CreateStage::GogoDetails => a matches CreateAction::Fetch(Source::GogoDetails, u) && u@ == s.sites.gogo@
            + "category/"@ + s.gogo_id@,
        CreateStage::GogoList => a matches CreateAction::Fetch(Source::GogoEpisodes, u) && u@
            == s.sites.gogo_ajax@ + "load-list-episode?ep_start=0&ep_end=999999&id="@ + opt_text(
            s.gogo.movie_id,
        ),
        CreateStage::GogoStream => if s.urls@.len() < s.paths@.len() {
            a matches CreateAction::Fetch(Source::GogoStream, u) && u@ == s.sites.gogo@
                + s.paths@[s.urls@.len() as int]@
        } else {
            a is Abort
        },
        CreateStage::AnimeggSearch => a matches CreateAction::Fetch(Source::AnimeggSearch, u) && u@
            == s.sites.animegg@ + "search/?q="@ + url_encoded(trim(s.title@)),
        CreateStage::AnimeggList => a matches CreateAction::Fetch(Source::AnimeggEpisodes, u) && u@
            == s.sites.animegg@ + "series/"@ + s.record.animegg_id@,
        CreateStage::AnimeggStream => if s.egg_urls@.len() < s.egg_ids@.len() {
            a matches CreateAction::Fetch(Source::AnimeggStream, u) && u@ == s.sites.animegg@
                + s.egg_ids@[s.egg_urls@.len() as int]@
        } else {
            a is Abort
        },
        CreateStage::MalSearch => a matches CreateAction::Fetch(Source::MalSearch, u) && u@ == s.sites.mal@
            + "anime.php?cat=anime&q="@ + sent_query(s.title@),
        CreateStage::MalDetails => match s.mal_first {
            Some(f) => a matches CreateAction::Fetch(Source::MalDetails(i), u) && i@ == opt_text(f.id) && u@
                == s.sites.mal@ + "anime/"@ + opt_text(f.id),
            None => a is Abort,
        },
        CreateStage::ScheduleSearch => a matches CreateAction::Fetch(Source::ScheduleSearch, u) && u@
            == s.sites.schedule@ + "shows?mt=all&st=search&q="@ + replaced(s.title@, " "@, "+"@),
        CreateStage::Done => a is Finish,
        CreateStage::Invalid => a is Finish,
    }
}

/// Whether the gathering in state `s` takes the answer `e`.
pub open spec fn takes_create(s: Create, e: Answer) -> bool {
    match s.stage {
        CreateStage::GogoDetails => e is Details,
        CreateStage::GogoList => e is Episodes && s.urls@.len() == 0,
        CreateStage::GogoStream => e is Stream && s.urls@.len() < s.paths@.len(),
        CreateStage::AnimeggSearch => e is Search,
        CreateStage::AnimeggList => e is Episodes,
        CreateStage::AnimeggStream => e is Stream && s.egg_urls@.len() < s.egg_ids@.len(),
        CreateStage::MalSearch => e is Search,
        CreateStage::MalDetails => e is Details && s.mal_first is Some,
        CreateStage::ScheduleSearch => e is Search,
        CreateStage::Done => false,
        CreateStage::Invalid => false,
    }
}

/// The state once the stream addresses of the first `s0.urls` paths are
/// read: the empty paths that follow get no address, and then either the
/// next path is read or, when none is left, the record is made from the
/// first site's details and episodes.
pub open spec fn gathered(s0: Create, s1: Create) -> bool {
    let k = s0.urls@.len() as int;
    let to = next_path(s0.paths@, k);
    &&& s1.urls@.len() == to
    &&& s1.urls@.take(k) == s0.urls@
    &&& forall|j: int| k <= j < to ==> (#[trigger] s1.urls@[j])@.len() == 0
    &&& if to < s0.paths@.len() {
        s1 == (Create { urls: s1.urls, stage: CreateStage::GogoStream, ..s0 })
    } else {
        &&& gogo_built(s0.paths@, s1.urls@, s1.record.episodes@)
        &&& record_of(s0.gogo_id@, s0.id, s0.gogo, s1.record.episodes, s1.record)
        &&& s1.title == s1.record.title
        &&& s1.gogo.is_blank()
        &&& s1 == (Create {
            urls: s1.urls,
            record: s1.record,
            title: s1.title,
            gogo: s1.gogo,
            stage: CreateStage::AnimeggSearch,
            ..s0
        })
    }
}

/// The state once the second site's stream addresses are all read (the
/// last of them being in `s1.egg_urls`): they go into the episode list,
/// which is then sorted.
pub open spec fn egg_done(s0: Create, s1: Create) -> bool {
    &&& exists|merged: Seq<Episode>|
        #[trigger] animegg_streams_merged(s0.record.episodes@, s0.egg_ids@, s1.egg_urls@, merged) && sorted_from(
            merged,
            s1.record.episodes@,
        )
    &&& s1 == (Create {
        record: Anime { episodes: s1.record.episodes, ..s0.record },
        egg_urls: s1.egg_urls,
        stage: CreateStage::MalSearch,
        ..s0
    })
}

/// The state the gathering in state `s0` moves to when it takes the answer `e`.
pub open spec fn stepped_create(s0: Create, e: Answer, s1: Create) -> bool {
    match s0.stage {
        CreateStage::GogoDetails => match e {
            Answer::Details(Ok(d)) => s1 == (Create { gogo: d, stage: CreateStage::GogoList, ..s0 }),
            _ => s1 == (Create { stage: CreateStage::Invalid, ..s0 }),
        },
        CreateStage::GogoList => match e {
            Answer::Episodes(v) => gathered(Create { paths: v, ..s0 }, s1),
            _ => false,
        },
        CreateStage::GogoStream => {
            let url = match e {
                Answer::Stream(r) => read_stream(r),
                _ => Seq::empty(),
            };
            exists|mid: Create|
                mid.urls@.len() == s0.urls@.len() + 1 && mid.urls@.drop_last() == s0.urls@ && mid.urls@.last()@
                    == url && mid == (Create { urls: mid.urls, ..s0 }) && #[trigger] gathered(mid, s1)
        },
        CreateStage::AnimeggSearch => {
            let results = match e {
                Answer::Search(r) => read_results(r),
                _ => Seq::empty(),
            };
            if has_match(results, s0.record.details.episodes) {
                &&& animegg_merged(s0.record, results[first_match(results, s0.record.details.episodes)], s1.record)
                &&& s1 == (Create { record: s1.record, stage: CreateStage::AnimeggList, ..s0 })
            } else {
                &&& sorted_from(s0.record.episodes@, s1.record.episodes@)
                &&& s1 == (Create {
                    record: Anime { episodes: s1.record.episodes, ..s0.record },
                    stage: CreateStage::MalSearch,
                    ..s0
                })
            }
        },
        CreateStage::AnimeggList => match e {
            Answer::Episodes(v) => {
                &&& sorted_from(s0.record.episodes@, s1.record.episodes@)
                &&& s1.egg_urls@.len() == 0
                &&& s1 == (Create {
                    record: Anime { episodes: s1.record.episodes, ..s0.record },
                    egg_ids: v,
                    egg_urls: s1.egg_urls,
                    stage: if v@.len() > 0 {
                        CreateStage::AnimeggStream
                    } else {
                        CreateStage::MalSearch
                    },
                    ..s0
                })
            },
            _ => false,
        },
        CreateStage::AnimeggStream => {
            let url = match e {
                Answer::Stream(r) => read_stream(r),
                _ => Seq::empty(),
            };
            &&& s1.egg_urls@.len() == s0.egg_urls@.len() + 1
            &&& s1.egg_urls@.drop_last() == s0.egg_urls@
            &&& s1.egg_urls@.last()@ == url
            &&& if s1.egg_urls@.len() < s0.egg_ids@.len() {
                s1 == (Create { egg_urls: s1.egg_urls, ..s0 })
            } else {
                egg_done(s0, s1)
            }
        },
        CreateStage::MalSearch => {
            let results = match e {
                Answer::Search(r) => read_results(r),
                _ => Seq::empty(),
            };
            if results.len() > 0 {
                s1 == (Create { mal_first: Some(results[0]), stage: CreateStage::MalDetails, ..s0 })
            } else {
                s1 == (Create { stage: CreateStage::ScheduleSearch, ..s0 })
            }
        },
        CreateStage::MalDetails => {
            let details = match e {
                Answer::Details(r) => read_details(r),
                _ => None,
            };
            &&& s0.mal_first matches Some(f) && mal_merged(s0.record, f, details, s1.record)
            &&& s1 == (Create { record: s1.record, mal_first: None, stage: CreateStage::ScheduleSearch, ..s0 })
        },
        CreateStage::ScheduleSearch => {
            let results = match e {
                Answer::Search(r) => read_results(r),
                _ => Seq::empty(),
            };
            &&& if results.len() > 0 {
                schedule_merged(s0.record, results[0], s1.record)
            } else {
                s1.record == s0.record
            }
            &&& s1 == (Create { record: s1.record, stage: CreateStage::Done, ..s0 })
        },
        CreateStage::Done => s1 == s0,
        CreateStage::Invalid => s1 == s0,
    }
}

fn details_read(r: Result<AnimeDetails, ScraperError>) -> (d: Option<AnimeDetails>)
    ensures
        d == read_details(r),
{
    match r {
        Ok(d) => Some(d),
        Err(_) => None,
    }
}

fn results_read(r: Result<Vec<AnimeDetails>, ScraperError>) -> (v: Vec<AnimeDetails>)
    ensures
        v@ == read_results(r),
{
    match r {
        Ok(v) => v,
        Err(_) => Vec::new(),
    }
}

fn stream_read(r: Result<String, ScraperError>) -> (u: String)
    ensures
        u@ == read_stream(r),
{
    match r {
        Ok(u) => u,
        Err(_) => String::new(),
    }
}

impl Create {
    /// Start gathering the series with the id `gogo_id` on the first
    /// streaming site, to be stored under the catalogue id `id`.
    pub fn start(gogo_id: &str, id: i64, sites: Sites) -> (r: (Create, CreateAction))
        ensures
            r.0.gogo_id@ == gogo_id@,
            r.0.id == id,
            r.0.sites == sites,
            r.0.stage == CreateStage::GogoDetails,
            r.0.gogo.is_blank(),
            r.0.paths@.len() == 0,
            r.0.urls@.len() == 0,
            r.0.egg_ids@.len() == 0,
            r.0.egg_urls@.len() == 0,
            r.0.mal_first is None,
            asks_create(r.0, r.1),
    {
        let c = Create {
            gogo_id: gogo_id.to_string(),
            id,
            sites,
            stage: CreateStage::GogoDetails,
            gogo: AnimeDetails::new(),
            paths: Vec::new(),
            urls: Vec::new(),
            record: Anime::new(),
            title: String::new(),
            egg_ids: Vec::new(),
            egg_urls: Vec::new(),
            mal_first: None,
        };
        let a = c.action();
        (c, a)
    }

    /// The request that `self` makes next.
    pub fn action(&self) -> (a: CreateAction)
        ensures
            asks_create(*self, a),
    {
        proof {
            reveal_strlit("anime/");
        }
        match self.stage {
            CreateStage::GogoDetails => CreateAction::Fetch(
                Source::GogoDetails,
                gogoanime::anime_details::details_url(self.sites.gogo.as_str(), self.gogo_id.as_str()),
            ),
            CreateStage::GogoList => {
                let movie_id = opt_string(self.gogo.movie_id.clone());
                CreateAction::Fetch(
                    Source::GogoEpisodes,
                    gogoanime::anime_details::episodes_url(self.sites.gogo_ajax.as_str(), movie_id.as_str()),
                )
            },
            CreateStage::GogoStream => if self.urls.len() < self.paths.len() {
                CreateAction::Fetch(
                    Source::GogoStream,
                    gogoanime::anime_stream::stream_url(
                        self.sites.gogo.as_str(),
                        self.paths[self.urls.len()].as_str(),
                    ),
                )
            } else {
                CreateAction::Abort
            },
            CreateStage::AnimeggSearch => CreateAction::Fetch(
                Source::AnimeggSearch,
                animegg::anime_search::search_url(self.sites.animegg.as_str(), self.title.as_str()),
            ),
            CreateStage::AnimeggList => CreateAction::Fetch(
                Source::AnimeggEpisodes,
                animegg::anime_details::details_url(self.sites.animegg.as_str(), self.record.animegg_id.as_str()),
            ),
            CreateStage::AnimeggStream => if self.egg_urls.len() < self.egg_ids.len() {
                CreateAction::Fetch(
                    Source::AnimeggStream,
                    animegg::anime_stream::stream_url(
                        self.sites.animegg.as_str(),
                        self.egg_ids[self.egg_urls.len()].as_str(),
                    ),
                )
            } else {
                CreateAction::Abort
            },
            CreateStage::MalSearch => CreateAction::Fetch(
                Source::MalSearch,
                mal::anime_search::search_url(self.sites.mal.as_str(), self.title.as_str()),
            ),
            CreateStage::MalDetails => match &self.mal_first {
                Some(f) => {
                    let mal_id = opt_string(f.id.clone());
                    let url = mal::anime_details::details_url(self.sites.mal.as_str(), mal_id.as_str());
                    CreateAction::Fetch(Source::MalDetails(mal_id), url)
                },
                None => CreateAction::Abort,
            },
            CreateStage::ScheduleSearch => CreateAction::Fetch(
                Source::ScheduleSearch,
                anime_schedule::anime_search::search_url(self.sites.schedule.as_str(), self.title.as_str()),
            ),
            CreateStage::Done => CreateAction::Finish,
            CreateStage::Invalid => CreateAction::Finish,
        }
    }

    /// Whether `self` takes the answer `e`.
    pub fn takes(&self, e: &Answer) -> (r: bool)
        ensures
            r == takes_create(*self, *e),
    {
        match self.stage {
            CreateStage::GogoDetails => matches!(e, Answer::Details(_)),
            CreateStage::GogoList => matches!(e, Answer::Episodes(_)) && self.urls.len() == 0,
            CreateStage::GogoStream => matches!(e, Answer::Stream(_)) && self.urls.len() < self.paths.len(),
            CreateStage::AnimeggSearch => matches!(e, Answer::Search(_)),
            CreateStage::AnimeggList => matches!(e, Answer::Episodes(_)),
            CreateStage::AnimeggStream => matches!(e, Answer::Stream(_)) && self.egg_urls.len()
                < self.egg_ids.len(),
            CreateStage::MalSearch => matches!(e, Answer::Search(_)),
            CreateStage::MalDetails => matches!(e, Answer::Details(_)) && self.mal_first.is_some(),
            CreateStage::ScheduleSearch => matches!(e, Answer::Search(_)),
            CreateStage::Done => false,
            CreateStage::Invalid => false,
        }
    }

    /// Skip the empty paths after those read, then ask for the next path or,
    /// when none is left, make the record.
    fn gather(&mut self)
        requires
            old(self).urls@.len() <= old(self).paths@.len(),
        ensures
            gathered(*old(self), *final(self)),
    {
        let ghost s0 = *self;
        let ghost k = self.urls@.len() as int;
        while self.urls.len() < self.paths.len() && self.paths[self.urls.len()].as_str().is_empty()
            invariant
                k == s0.urls@.len(),
                k <= self.urls@.len() <= self.paths@.len(),
                self.urls@.take(k) == s0.urls@,
                forall|j: int| k <= j < self.urls@.len() ==> (#[trigger] self.urls@[j])@.len() == 0,
                next_path(s0.paths@, k) == next_path(s0.paths@, self.urls@.len() as int),
                *self == (Create { urls: self.urls, ..s0 }),
            decreases self.paths@.len() - self.urls@.len(),
        {
            let ghost u0 = self.urls@;
            self.urls.push(String::new());
            assert(self.urls@.take(k) =~= u0.take(k));
        }
        if self.urls.len() < self.paths.len() {
            self.stage = CreateStage::GogoStream;
        } else {
            let mut gogo = AnimeDetails::new();
            std::mem::swap(&mut gogo, &mut self.gogo);
            let eps = gogo_episodes(&self.paths, &self.urls);
            self.record = new_anime_record(self.gogo_id.as_str(), self.id, gogo, eps);
            self.title = self.record.title.clone();
            self.stage = CreateStage::AnimeggSearch;
        }
    }

    /// Take the answer `e` to the last request and say what to do next; an
    /// answer of another kind than the one awaited is refused.
    pub fn step(&mut self, e: Answer) -> (a: CreateAction)
        ensures
            !takes_create(*old(self), e) ==> *final(self) == *old(self) && a is Abort,
            takes_create(*old(self), e) ==> stepped_create(*old(self), e, *final(self)) && asks_create(
                *final(self),
                a,
            ),
    {
        if !self.takes(&e) {
            return CreateAction::Abort;
        }
        let ghost s0 = *self;
        match self.stage {
            CreateStage::GogoDetails => match e {
                Answer::Details(Ok(d)) => {
                    self.gogo = d;
                    self.stage = CreateStage::GogoList;
                },
                _ => {
                    self.stage = CreateStage::Invalid;
                },
            },
            CreateStage::GogoList => match e {
                Answer::Episodes(v) => {
                    self.paths = v;
                    self.gather();
                },
                _ => {},
            },
            CreateStage::GogoStream => {
                let url = match e {
                    Answer::Stream(r) => stream_read(r),
                    _ => String::new(),
                };
                self.urls.push(url);
                let ghost mid = *self;
                assert(mid.urls@.drop_last() =~= s0.urls@);
                self.gather();
                assert(gathered(mid, *self));
            },
            CreateStage::AnimeggSearch => {
                let results = match e {
                    Answer::Search(r) => results_read(r),
                    _ => Vec::new(),
                };
                let ghost rs = results@;
                let count = self.record.details.episodes;
                match find_animegg_match(&results, count) {
                    Some(i) => {
                        proof {
                            assert(has_match(rs, count));
                            let j = first_match(rs, count);
                            if j < i {
                                assert(!count_close(rs[j].episodes, count));
                            } else if i < j {
                                assert(!count_close(rs[i as int].episodes, count));
                            }
                        }
                        let mut results = results;
                        let found = results.remove(i);
                        merge_animegg_details(&mut self.record, found);
                        self.stage = CreateStage::AnimeggList;
                    },
                    None => {
                        sort_episodes(&mut self.record.episodes);
                        self.stage = CreateStage::MalSearch;
                    },
                }
            },
            CreateStage::AnimeggList => match e {
                Answer::Episodes(v) => {
                    sort_episodes(&mut self.record.episodes);
                    self.egg_ids = v;
                    self.egg_urls = Vec::new();
                    self.stage = if self.egg_ids.len() > 0 {
                        CreateStage::AnimeggStream
                    } else {
                        CreateStage::MalSearch
                    };
                },
                _ => {},
            },
            CreateStage::AnimeggStream => {
                let url = match e {
                    Answer::Stream(r) => stream_read(r),
                    _ => String::new(),
                };
                let ghost u0 = self.egg_urls@;
                self.egg_urls.push(url);
                assert(self.egg_urls@.drop_last() =~= u0);
                if self.egg_urls.len() >= self.egg_ids.len() {
                    let ghost e0 = self.record.episodes@;
                    merge_animegg_episodes(&mut self.record.episodes, &self.egg_ids, &self.egg_urls);
                    let ghost merged = self.record.episodes@;
                    sort_episodes(&mut self.record.episodes);
                    self.stage = CreateStage::MalSearch;
                    assert(animegg_streams_merged(e0, self.egg_ids@, self.egg_urls@, merged));
                }
            },
            CreateStage::MalSearch => {
                let results = match e {
                    Answer::Search(r) => results_read(r),
                    _ => Vec::new(),
                };
                if results.len() > 0 {
                    let mut results = results;
                    self.mal_first = Some(results.remove(0));
                    self.stage = CreateStage::MalDetails;
                } else {
                    self.stage = CreateStage::ScheduleSearch;
                }
            },
            CreateStage::MalDetails => {
                let details = match e {
                    Answer::Details(r) => details_read(r),
                    _ => None,
                };
                let mut first: Option<AnimeDetails> = None;
                std::mem::swap(&mut first, &mut self.mal_first);
                match first {
                    Some(f) => merge_mal(&mut self.record, f, details),
                    None => {},
                }
                self.stage = CreateStage::ScheduleSearch;
            },
            CreateStage::ScheduleSearch => {
                let results = match e {
                    Answer::Search(r) => results_read(r),
                    _ => Vec::new(),
                };
                if results.len() > 0 {
                    let mut results = results;
                    let first = results.remove(0);
                    merge_schedule(&mut self.record, first);
                }
                self.stage = CreateStage::Done;
            },
            CreateStage::Done => {},
            CreateStage::Invalid => {},
        }
        self.action()
    }

    /// What gathering gave, stamped at `now`: the series to store when the
    /// first site gave it a title; otherwise why nothing is stored.
    pub fn finish(self, now: i64) -> (r: Result<Anime, CacheResult>)
        ensures
            self.stage == CreateStage::Invalid ==> (r matches Err(e) && e.is_error && e.reason@
                == "Invalid id!"@),
            self.stage != CreateStage::Invalid && self.title@.len() > 0 ==> r == Ok::<Anime, CacheResult>(
                Anime { last_updated: now, ..self.record },
            ),
            self.stage != CreateStage::Invalid && self.title@.len() == 0 ==> (r matches Err(e) && e.is_error
                && e.reason@ == "No data collected"@),
    {
        if self.stage == CreateStage::Invalid {
            return Err(CacheResult::new("Invalid id!", true));
        }
        new_anime_result(self.record, self.title.as_str(), now)
    }
}

/// How far along the gathering in a given stage is.
pub open spec fn create_rank(st: CreateStage) -> nat {
    match st {
        CreateStage::GogoDetails => 0,
        CreateStage::GogoList => 1,
        CreateStage::GogoStream => 2,
        CreateStage::AnimeggSearch => 3,
        CreateStage::AnimeggList => 4,
        CreateStage::AnimeggStream => 5,
        CreateStage::MalSearch => 6,
        CreateStage::MalDetails => 7,
        CreateStage::ScheduleSearch => 8,
        CreateStage::Done => 9,
        CreateStage::Invalid => 9,
    }
}

/// How many episode pages the gathering still has to read in its stage.
pub open spec fn pages_left(s: Create) -> int {
    match s.stage {
        CreateStage::GogoStream => s.paths@.len() - s.urls@.len(),
        CreateStage::AnimeggStream => s.egg_ids@.len() - s.egg_urls@.len(),
        _ => 0,
    }
}

proof fn lemma_next_path_bounds(paths: Seq<String>, k: int)
    requires
        0 <= k <= paths.len(),
    ensures
        k <= next_path(paths, k) <= paths.len(),
    decreases paths.len() - k,
{
    if k < paths.len() && paths[k]@.len() == 0 {
        lemma_next_path_bounds(paths, k + 1);
    }
}

/// Every answer the gathering takes moves it on: to a later stage, or,
/// while it reads episode pages, closer to the last of them; so gathering a
/// series ends after finitely many requests.
pub proof fn law_create_progress(s0: Create, e: Answer, s1: Create)
    requires
        takes_create(s0, e),
        stepped_create(s0, e, s1),
    ensures
        create_rank(s1.stage) > create_rank(s0.stage) || (create_rank(s1.stage) == create_rank(s0.stage)
            && 0 <= pages_left(s1) < pages_left(s0)),
{
    if s0.stage == CreateStage::GogoStream {
        let url = match e {
            Answer::Stream(r) => read_stream(r),
            _ => Seq::empty(),
        };
        let mid = choose|mid: Create|
            mid.urls@.len() == s0.urls@.len() + 1 && mid.urls@.drop_last() == s0.urls@ && mid.urls@.last()@
                == url && mid == (Create { urls: mid.urls, ..s0 }) && #[trigger] gathered(mid, s1);
        lemma_next_path_bounds(mid.paths@, mid.urls@.len() as int);
    }
}

/// Gathering never changes which series it gathers: the id on the first
/// site, the catalogue id and the site addresses stay; once the record is
/// made, it keeps its catalogue and first-site ids and the title the first
/// site gave.
pub proof fn law_create_keeps(s0: Create, e: Answer, s1: Create)
    requires
        takes_create(s0, e),
        stepped_create(s0, e, s1),
        create_rank(s0.stage) >= 3,
    ensures
        s1.gogo_id == s0.gogo_id,
        s1.id == s0.id,
        s1.sites == s0.sites,
        s1.title == s0.title,
        s1.record.id == s0.record.id,
        s1.record.gogo_id == s0.record.gogo_id,
{
}

} // verus!
