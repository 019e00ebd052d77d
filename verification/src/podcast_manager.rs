use vstd::prelude::*;

use crate::clock::now_millis;
use crate::episodes::Episode;
use crate::text::str_eq;

verus! {

/// A podcast as the contracts see it: its feed URL, display title,
/// episode list, and bookkeeping values.
pub struct PodcastView {
    pub feed_url: Seq<char>,
    pub title: Seq<char>,
    pub episodes: Seq<Episode>,
    pub time_added_ms: u64,
    pub last_updated_ms: Option<u64>,
    pub total_episodes: usize,
    pub description: Option<Seq<char>>,
    pub author: Option<Seq<char>>,
}

/// One subscribed podcast: a feed URL, a title, and the episodes fetched
/// from the feed, with the time (milliseconds since the epoch) it was
/// added.
#[derive(Debug, Clone)]
pub struct Podcast {
    feed_url: String,
    title: String,
    episodes: Vec<Episode>,
    time_added_ms: u64,
    last_updated_ms: Option<u64>,
    total_episodes: usize,
    description: Option<String>,
    author: Option<String>,
}

impl View for Podcast {
    type V = PodcastView;

    closed spec fn view(&self) -> PodcastView {
        PodcastView {
            feed_url: self.feed_url@,
            title: self.title@,
            episodes: self.episodes@,
            time_added_ms: self.time_added_ms,
            last_updated_ms: self.last_updated_ms,
            total_episodes: self.total_episodes,
            description: match self.description {
                Some(ref d) => Some(d@),
                None => None,
            },
            author: match self.author {
                Some(ref a) => Some(a@),
                None => None,
            },
        }
    }
}

impl Podcast {
    /// A new subscription, stamped with the current wall-clock time (of
    /// which nothing is promised).
    pub fn new(feed_url: String, title: String, episodes: Vec<Episode>) -> (podcast: Podcast)
        ensures
            podcast@.feed_url == feed_url@,
            podcast@.title == title@,
            podcast@.episodes == episodes@,
            podcast@.last_updated_ms is None,
            podcast@.total_episodes == episodes@.len(),
            podcast@.description is None,
            podcast@.author is None,
    {
        let total = episodes.len();
        Podcast {
            feed_url,
            title,
            total_episodes: total,
            episodes,
            time_added_ms: now_millis(),
            last_updated_ms: None,
            description: None,
            author: None,
        }
    }

    pub fn feed_url(&self) -> (url: &str)
        ensures
            url@ == self@.feed_url,
    {
        self.feed_url.as_str()
    }

    pub fn title(&self) -> (title: &str)
        ensures
            title@ == self@.title,
    {
        self.title.as_str()
    }

    pub fn episodes(&self) -> (episodes: &[Episode])
        ensures
            episodes@ == self@.episodes,
    {
        self.episodes.as_slice()
    }

    /// When this subscription was added, in milliseconds since the epoch.
    pub fn time_added(&self) -> (added_ms: u64)
        ensures
            added_ms == self@.time_added_ms,
    {
        self.time_added_ms
    }
}

/// Index of the first podcast with the given feed URL, or the length of
/// the sequence when none carries it.
pub open spec fn find_url(podcasts: Seq<Podcast>, url: Seq<char>) -> int
    decreases podcasts.len(),
{
    if podcasts.len() == 0 {
        0
    } else if podcasts[0]@.feed_url == url {
        0
    } else {
        1 + find_url(podcasts.skip(1), url)
    }
}

pub proof fn lemma_find_url_at(podcasts: Seq<Podcast>, url: Seq<char>, k: int)
    requires
        0 <= k <= podcasts.len(),
        forall|j: int| 0 <= j < k ==> podcasts[j]@.feed_url != url,
        k < podcasts.len() ==> podcasts[k]@.feed_url == url,
        k == podcasts.len() ==> forall|j: int|
            0 <= j < podcasts.len() ==> podcasts[j]@.feed_url != url,
    ensures
        find_url(podcasts, url) == k,
    decreases k,
{
    if podcasts.len() == 0 {
    } else if podcasts[0]@.feed_url == url {
    } else {
        lemma_find_url_at(podcasts.skip(1), url, k - 1);
    }
}

/// The subscription collection, keyed by feed URL: no two entries carry
/// the same URL, and insertion order is kept.
pub struct PodcastManager {
    podcasts: Vec<Podcast>,
}

impl View for PodcastManager {
    type V = Seq<Podcast>;

    closed spec fn view(&self) -> Seq<Podcast> {
        self.podcasts@
    }
}

impl PodcastManager {
    /// No two subscriptions share a feed URL.
    pub open spec fn wf(&self) -> bool {
        forall|i: int, j: int|
            0 <= i < j < self@.len() ==> self@[i]@.feed_url != self@[j]@.feed_url
    }

    pub fn new() -> (manager: PodcastManager)
        ensures
            manager.wf(),
            manager@ == Seq::<Podcast>::empty(),
    {
        PodcastManager { podcasts: Vec::new() }
    }

    /// Adds a subscription under its feed URL: a podcast already stored
    /// under that URL is replaced in place, any other is appended.
    pub fn add_podcast(&mut self, podcast: Podcast)
        requires
            old(self).wf(),
        ensures
            final(self).wf(),
            ({
                let i = find_url(old(self)@, podcast@.feed_url);
                if i < old(self)@.len() {
                    final(self)@ == old(self)@.update(i, podcast)
                } else {
                    final(self)@ == old(self)@.push(podcast)
                }
            }),
    {
        let n = self.podcasts.len();
        let mut k: usize = 0;
        while k < n
            invariant
                0 <= k <= n,
                n == self@.len(),
                self == old(self),
                old(self).wf(),
                forall|j: int| 0 <= j < k ==> self@[j]@.feed_url != podcast@.feed_url,
            decreases n - k,
        {
            if str_eq(self.podcasts[k].feed_url(), podcast.feed_url()) {
                proof {
                    lemma_find_url_at(self@, podcast@.feed_url, k as int);
                }
                self.podcasts.remove(k);
                self.podcasts.insert(k, podcast);
                proof {
                    assert(self@ =~= old(self)@.update(k as int, podcast));
                }
                return ;
            }
            k = k + 1;
        }
        proof {
            lemma_find_url_at(self@, podcast@.feed_url, n as int);
        }
        self.podcasts.push(podcast);
    }

    /// The feed URLs of all subscriptions, in insertion order.
    pub fn list_podcast_urls(&self) -> (urls: Vec<String>)
        ensures
            urls.deep_view() == self@.map_values(|p: Podcast| p@.feed_url),
    {
        let ghost target = self@.map_values(|p: Podcast| p@.feed_url);
        let mut urls: Vec<String> = Vec::new();
        let mut k: usize = 0;
        while k < self.podcasts.len()
            invariant
                0 <= k <= self@.len(),
                target == self@.map_values(|p: Podcast| p@.feed_url),
                urls.deep_view() =~= target.subrange(0, k as int),
            decreases self@.len() - k,
        {
            let ghost prev = urls.deep_view();
            urls.push(self.podcasts[k].feed_url.clone());
            proof {
                assert(urls.deep_view() =~= prev.push(self@[k as int]@.feed_url));
                assert(urls.deep_view() =~= target.subrange(0, k + 1));
            }
            k = k + 1;
        }
        proof {
            assert(urls.deep_view() =~= target);
        }
        urls
    }

    /// The titles of all subscriptions, in insertion order.
    pub fn list_podcast_titles(&self) -> (titles: Vec<String>)
        ensures
            titles.deep_view() == self@.map_values(|p: Podcast| p@.title),
    {
        let ghost target = self@.map_values(|p: Podcast| p@.title);
        let mut titles: Vec<String> = Vec::new();
        let mut k: usize = 0;
        while k < self.podcasts.len()
            invariant
                0 <= k <= self@.len(),
                target == self@.map_values(|p: Podcast| p@.title),
                titles.deep_view() =~= target.subrange(0, k as int),
            decreases self@.len() - k,
        {
            let ghost prev = titles.deep_view();
            titles.push(self.podcasts[k].title.clone());
            proof {
                assert(titles.deep_view() =~= prev.push(self@[k as int]@.title));
                assert(titles.deep_view() =~= target.subrange(0, k + 1));
            }
            k = k + 1;
        }
        proof {
            assert(titles.deep_view() =~= target);
        }
        titles
    }

    /// The subscription stored under a feed URL, when there is one.
    pub fn get_podcast(&self, feed_url: &str) -> (podcast: Option<&Podcast>)
        ensures
            ({
                let i = find_url(self@, feed_url@);
                if i < self@.len() {
                    podcast matches Some(p) && *p == self@[i]
                } else {
                    podcast is None
                }
            }),
    {
        let n = self.podcasts.len();
        let mut k: usize = 0;
        while k < n
            invariant
                0 <= k <= n,
                n == self@.len(),
                forall|j: int| 0 <= j < k ==> self@[j]@.feed_url != feed_url@,
            decreases n - k,
        {
            if str_eq(self.podcasts[k].feed_url(), feed_url) {
                proof {
                    lemma_find_url_at(self@, feed_url@, k as int);
                }
                return Some(&self.podcasts[k]);
            }
            k = k + 1;
        }
        proof {
            lemma_find_url_at(self@, feed_url@, n as int);
        }
        None
    }

    /// The episodes of the subscription stored under a feed URL.
    pub fn get_episodes(&self, feed_url: &str) -> (episodes: Option<&[Episode]>)
        ensures
            ({
                let i = find_url(self@, feed_url@);
                if i < self@.len() {
                    episodes matches Some(eps) && eps@ == self@[i]@.episodes
                } else {
                    episodes is None
                }
            }),
    {
        match self.get_podcast(feed_url) {
            Some(podcast) => Some(podcast.episodes()),
            None => None,
        }
    }
}

} // verus!
