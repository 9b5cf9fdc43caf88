//! Rebuilding the home page of a day, one request at a time: the stored
//! page, the recent releases (from the first site, or else the second), the
//! popular series, and the stored series each of them is.
use vstd::prelude::*;
use crate::caching::cache_home::{
    details_lookup_ids, get_popular, get_recent, home_on_cooldown, popular_joined, recent_spec,
    release_lookup_ids,
};
use crate::caching::cache_anime::opt_text;
use crate::caching::refresh::Sites;
use crate::scrapers::animegg;
use crate::scrapers::gogoanime;
use crate::utils::types::{Anime, AnimeDetails, AnimeRelease, CacheResult, Home, IdType, ScraperError};

verus! {

broadcast use vstd::string::group_string_axioms;

/// Where a rebuild stands: what it waits for.
#[derive(Debug, Clone, Copy, PartialEq, Eq, Structural)]
pub enum HomeStage {
    /// The stored home page of the day.
    Stored,
    /// The recent releases of the first streaming site.
    GogoRecent,
    /// The recent releases of the second streaming site.
    AnimeggRecent,
    /// The stored series of the recent releases.
    RecentLookup,
    /// The popular series of the first streaming site.
    Popular,
    /// The stored series of the popular ones.
    PopularLookup,
    /// Nothing: the page is ready to be stored.
    Store,
    /// Nothing: the stored page is too fresh to rebuild.
    Cooldown,
    /// Nothing: the stored page's time cannot be compared with now.
    Failed,
}

/// What a request of a rebuild reads.
pub enum HomeSource {
    GogoRecent,
    AnimeggRecent,
    Popular,
}

/// What a request of a rebuild gave.
pub enum HomeEvent {
    /// The stored home page of the day, if any.
    Stored(Option<Home>),
    /// Recent releases, as the scraper of the source read them.
    Releases(Result<Vec<AnimeRelease>, ScraperError>),
    /// Popular series, as the scraper read them.
    Popular(Result<Vec<AnimeDetails>, ScraperError>),
    /// The stored series found for each id looked up.
    Found(Vec<Option<Anime>>),
}

/// What a rebuild asks for next.
pub enum HomeAction {
    /// Read the stored home page of this day.
    ReadStored(String),
    /// Request the page at this address and read it as the source says.
    Fetch(HomeSource, String),
    /// Look each id up among the stored series, by the ids of this site.
    Lookup(Vec<String>, IdType),
    /// Store the rebuilt page.
    Store,
    /// Stop: the stored page is fresh; this is the outcome.
    Cooldown(CacheResult),
    /// Give up.
    Abort,
}

/// A rebuild of the home page of one day, at time `now`.
pub struct HomeBuild {
    pub sites: Sites,
    pub now: i64,
    /// Seconds a stored page stays fresh.
    pub countdown: i64,
    pub stage: HomeStage,
    pub stored: Option<Home>,
    /// The page being rebuilt.
    pub home: Home,
    /// The recent releases read, and the site their ids belong to.
    pub releases: Vec<AnimeRelease>,
    pub kind: IdType,
    /// The popular series read.
    pub popular: Vec<AnimeDetails>,
}

/// The ids to look up are one per entry, the entry's id or empty.
pub open spec fn lookup_of_releases(ids: Seq<String>, rs: Seq<AnimeRelease>) -> bool {
    ids.len() == rs.len() && forall|i: int| 0 <= i < ids.len() ==> (#[trigger] ids[i])@ == opt_text(rs[i].id)
}

pub open spec fn lookup_of_details(ids: Seq<String>, ds: Seq<AnimeDetails>) -> bool {
    ids.len() == ds.len() && forall|i: int| 0 <= i < ids.len() ==> (#[trigger] ids[i])@ == opt_text(ds[i].id)
}

/// The request a rebuild in state `s` makes.
pub open spec fn asks_home(s: HomeBuild, a: HomeAction) -> bool {
    match s.stage {
        HomeStage::Stored => a matches HomeAction::ReadStored(d) && d@ == s.home.date@,
        HomeStage::GogoRecent => a matches HomeAction::Fetch(HomeSource::GogoRecent, u) && u@
            == s.sites.gogo_ajax@ + "page-recent-release.html?page="@ + "1"@,
        HomeStage::AnimeggRecent => a matches HomeAction::Fetch(HomeSource::AnimeggRecent, u) && u@
            == s.sites.animegg@ + "releases/"@,
        HomeStage::RecentLookup => a matches HomeAction::Lookup(ids, k) && k == s.kind && lookup_of_releases(
            ids@,
            s.releases@,
        ),
        HomeStage::Popular => a matches HomeAction::Fetch(HomeSource::Popular, u) && u@ == s.sites.gogo@
            + "popular.html?page="@ + "1"@,
        HomeStage::PopularLookup => a matches HomeAction::Lookup(ids, k) && k == IdType::Gogoanime
            && lookup_of_details(ids@, s.popular@),
        HomeStage::Store => a is Store,
        HomeStage::Cooldown => a matches HomeAction::Cooldown(c) && c.is_error && c.reason@ == "On cooldown!"@,
        HomeStage::Failed => a is Abort,
    }
}

/// Whether a rebuild in state `s` takes the answer `e`.
pub open spec fn takes_home(s: HomeBuild, e: HomeEvent) -> bool {
    match s.stage {
        HomeStage::Stored => e is Stored,
        HomeStage::GogoRecent => e is Releases,
        HomeStage::AnimeggRecent => e is Releases,
        HomeStage::RecentLookup => e matches HomeEvent::Found(v) && v@.len() == s.releases@.len(),
        HomeStage::Popular => e is Popular,
        HomeStage::PopularLookup => e matches HomeEvent::Found(v) && v@.len() == s.popular@.len(),
        _ => false,
    }
}

/// The state a rebuild in state `s0` moves to when it takes the answer `e`.
pub open spec fn stepped_home(s0: HomeBuild, e: HomeEvent, s1: HomeBuild) -> bool {
    match (s0.stage, e) {
        (HomeStage::Stored, HomeEvent::Stored(h)) => s1 == (HomeBuild {
            stored: h,
            stage: match h {
                Some(x) => if !(i64::MIN <= s0.now - x.last_updated <= i64::MAX) {
                    HomeStage::Failed
                } else if s0.now - x.last_updated < s0.countdown {
                    HomeStage::Cooldown
                } else {
                    HomeStage::GogoRecent
                },
                None => HomeStage::GogoRecent,
            },
            ..s0
        }),
        (HomeStage::GogoRecent, HomeEvent::Releases(r)) => match r {
            Ok(v) => if v@.len() > 0 {
                s1 == (HomeBuild { releases: v, kind: IdType::Gogoanime, stage: HomeStage::RecentLookup, ..s0 })
            } else {
                s1 == (HomeBuild { stage: HomeStage::AnimeggRecent, ..s0 })
            },
            Err(_) => s1 == (HomeBuild { stage: HomeStage::AnimeggRecent, ..s0 }),
        },
        (HomeStage::AnimeggRecent, HomeEvent::Releases(r)) => match r {
            Ok(v) => if v@.len() > 0 {
                s1 == (HomeBuild { releases: v, kind: IdType::AnimeGG, stage: HomeStage::RecentLookup, ..s0 })
            } else {
                s1 == (HomeBuild { stage: HomeStage::Popular, ..s0 })
            },
            Err(_) => s1 == (HomeBuild { stage: HomeStage::Popular, ..s0 }),
        },
        (HomeStage::RecentLookup, HomeEvent::Found(v)) => {
            &&& s1.home.recent@ == recent_spec(s0.releases@, v@)
            &&& s1 == (HomeBuild {
                home: Home { recent: s1.home.recent, ..s0.home },
                stage: HomeStage::Popular,
                ..s0
            })
        },
        (HomeStage::Popular, HomeEvent::Popular(r)) => match r {
            Ok(v) => if v@.len() > 0 {
                s1 == (HomeBuild { popular: v, stage: HomeStage::PopularLookup, ..s0 })
            } else {
                s1 == (HomeBuild { stage: HomeStage::Store, ..s0 })
            },
            Err(_) => s1 == (HomeBuild { stage: HomeStage::Store, ..s0 }),
        },
        (HomeStage::PopularLookup, HomeEvent::Found(v)) => {
            &&& popular_joined(s0.popular@, v@, s1.home.popular@)
            &&& s1 == (HomeBuild {
                home: Home { popular: s1.home.popular, ..s0.home },
                stage: HomeStage::Store,
                ..s0
            })
        },
        _ => s1 == s0,
    }
}

impl HomeBuild {
    /// Start rebuilding the home page of the day `date` at time `now`.
    pub fn start(date: &str, now: i64, countdown: i64, sites: Sites) -> (r: (HomeBuild, HomeAction))
        ensures
            r.0.home.date@ == date@,
            r.0.home.last_updated == 0,
            r.0.home.schedule@.len() == 0,
            r.0.home.recent@.len() == 0,
            r.0.home.popular@.len() == 0,
            r.0.now == now,
            r.0.countdown == countdown,
            r.0.sites == sites,
            r.0.stage == HomeStage::Stored,
            r.0.stored is None,
            r.0.releases@.len() == 0,
            r.0.popular@.len() == 0,
            asks_home(r.0, r.1),
    {
        let mut home = Home::new();
        home.date = date.to_string();
        let b = HomeBuild {
            sites,
            now,
            countdown,
            stage: HomeStage::Stored,
            stored: None,
            home,
            releases: Vec::new(),
            kind: IdType::Gogoanime,
            popular: Vec::new(),
        };
        let a = b.action();
        (b, a)
    }

    /// The request that `self` makes next.
    pub fn action(&self) -> (a: HomeAction)
        ensures
            asks_home(*self, a),
    {
        match self.stage {
            HomeStage::Stored => HomeAction::ReadStored(self.home.date.clone()),
            HomeStage::GogoRecent => HomeAction::Fetch(
                HomeSource::GogoRecent,
                gogoanime::anime_recent::recent_url(self.sites.gogo_ajax.as_str(), "1"),
            ),
            HomeStage::AnimeggRecent => HomeAction::Fetch(
                HomeSource::AnimeggRecent,
                animegg::anime_recent::recent_url(self.sites.animegg.as_str()),
            ),
            HomeStage::RecentLookup => HomeAction::Lookup(release_lookup_ids(&self.releases), self.kind),
            HomeStage::Popular => HomeAction::Fetch(
                HomeSource::Popular,
                gogoanime::anime_popular::popular_url(self.sites.gogo.as_str(), "1"),
            ),
            HomeStage::PopularLookup => HomeAction::Lookup(details_lookup_ids(&self.popular), IdType::Gogoanime),
            HomeStage::Store => HomeAction::Store,
            HomeStage::Cooldown => HomeAction::Cooldown(CacheResult::new("On cooldown!", true)),
            HomeStage::Failed => HomeAction::Abort,
        }
    }

    /// Whether `self` takes the answer `e`.
    pub fn takes(&self, e: &HomeEvent) -> (r: bool)
        ensures
            r == takes_home(*self, *e),
    {
        match self.stage {
            HomeStage::Stored => matches!(e, HomeEvent::Stored(_)),
            HomeStage::GogoRecent => matches!(e, HomeEvent::Releases(_)),
            HomeStage::AnimeggRecent => matches!(e, HomeEvent::Releases(_)),
            HomeStage::RecentLookup => match e {
                HomeEvent::Found(v) => v.len() == self.releases.len(),
                _ => false,
            },
            HomeStage::Popular => matches!(e, HomeEvent::Popular(_)),
            HomeStage::PopularLookup => match e {
                HomeEvent::Found(v) => v.len() == self.popular.len(),
                _ => false,
            },
            _ => false,
        }
    }

    /// Take the answer `e` to the last request and say what to do next; an
    /// answer of another kind than the one awaited is refused.
    pub fn step(&mut self, e: HomeEvent) -> (a: HomeAction)
        ensures
            !takes_home(*old(self), e) ==> *final(self) == *old(self) && a is Abort,
            takes_home(*old(self), e) ==> stepped_home(*old(self), e, *final(self)) && asks_home(*final(self), a),
    {
        if !self.takes(&e) {
            return HomeAction::Abort;
        }
        match e {
            HomeEvent::Stored(h) => {
                let stage = match &h {
                    Some(x) => match self.now.checked_sub(x.last_updated) {
                        None => HomeStage::Failed,
                        Some(_) => if home_on_cooldown(Some(x.last_updated), self.now, self.countdown) {
                            HomeStage::Cooldown
                        } else {
                            HomeStage::GogoRecent
                        },
                    },
                    None => HomeStage::GogoRecent,
                };
                self.stored = h;
                self.stage = stage;
            },
            HomeEvent::Releases(r) => {
                let gogo = self.stage == HomeStage::GogoRecent;
                match r {
                    Ok(v) => if v.len() > 0 {
                        self.releases = v;
                        self.kind = if gogo {
                            IdType::Gogoanime
                        } else {
                            IdType::AnimeGG
                        };
                        self.stage = HomeStage::RecentLookup;
                    } else {
                        self.stage = if gogo {
                            HomeStage::AnimeggRecent
                        } else {
                            HomeStage::Popular
                        };
                    },
                    Err(_) => {
                        self.stage = if gogo {
                            HomeStage::AnimeggRecent
                        } else {
                            HomeStage::Popular
                        };
                    },
                }
            },
            HomeEvent::Found(v) => {
                if self.stage == HomeStage::RecentLookup {
                    let (_, recent) = get_recent(&self.releases, &v);
                    assert(recent@ =~= recent_spec(self.releases@, v@));
                    self.home.recent = recent;
                    self.stage = HomeStage::Popular;
                } else {
                    let (_, popular) = get_popular(&self.popular, &v);
                    assert(self.popular@.len() == 0 ==> popular_joined(self.popular@, v@, popular@));
                    self.home.popular = popular;
                    self.stage = HomeStage::Store;
                }
            },
            HomeEvent::Popular(r) => {
                match r {
                    Ok(v) => if v.len() > 0 {
                        self.popular = v;
                        self.stage = HomeStage::PopularLookup;
                    } else {
                        self.stage = HomeStage::Store;
                    },
                    Err(_) => {
                        self.stage = HomeStage::Store;
                    },
                }
            },
        }
        self.action()
    }
}

/// How far along a rebuild in a given stage is.
pub open spec fn home_rank(st: HomeStage) -> nat {
    match st {
        HomeStage::Stored => 0,
        HomeStage::GogoRecent => 1,
        HomeStage::AnimeggRecent => 2,
        HomeStage::RecentLookup => 3,
        HomeStage::Popular => 4,
        HomeStage::PopularLookup => 5,
        HomeStage::Store => 6,
        HomeStage::Cooldown => 6,
        HomeStage::Failed => 6,
    }
}

/// Every answer a rebuild takes moves it to a later stage, so a rebuild
/// makes at most six requests; and it keeps the day it rebuilds.
pub proof fn law_home_progress(s0: HomeBuild, e: HomeEvent, s1: HomeBuild)
    requires
        takes_home(s0, e),
        stepped_home(s0, e, s1),
    ensures
        home_rank(s1.stage) > home_rank(s0.stage),
        s1.home.date == s0.home.date,
{
}

} // verus!
