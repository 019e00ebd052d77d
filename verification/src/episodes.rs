use vstd::prelude::*;
use vstd::string::StrSliceExecFns;
use vstd::string::StringExecFns;

use crate::text::dec2_str;
use crate::text::first_index;
use crate::text::fmt_u64_pad2;
use crate::text::is_digit_char;
use crate::text::numeral_body;
use crate::text::parse_u64_spec;
use crate::text::parse_u64_str;
use crate::text::split_on;
use crate::text::split_on_str;
use crate::text::trim_str;
use crate::text::trimmed;

verus! {

/// One episode of a feed, reduced to the plain values the player reads.
/// The duration is in whole seconds, when the feed declared one.
#[derive(Debug, Clone)]
pub struct Episode {
    pub title: String,
    pub link: Option<String>,
    pub description: Option<String>,
    pub pub_date: Option<String>,
    pub duration: Option<u64>,
    pub audio_url: Option<String>,
}

impl Default for Episode {
    /// An episode with an empty title and nothing else known.
    fn default() -> (episode: Episode)
        ensures
            episode.title@ == Seq::<char>::empty(),
            episode.link is None,
            episode.description is None,
            episode.pub_date is None,
            episode.duration is None,
            episode.audio_url is None,
    {
        Episode {
            title: String::new(),
            link: None,
            description: None,
            pub_date: None,
            duration: None,
            audio_url: None,
        }
    }
}

// ---------------------------------------------------------------------------
// Duration strings
// ---------------------------------------------------------------------------
/// Hours, minutes and seconds of an `H:MM:SS` numeral triple, when all
/// three parse and the total fits.
pub open spec fn hms_total(h: Option<u64>, m: Option<u64>, s: Option<u64>) -> Option<u64> {
    match (h, m, s) {
        (Some(h), Some(m), Some(s)) => if h * 3600 + m * 60 + s <= u64::MAX {
            Some((h * 3600 + m * 60 + s) as u64)
        } else {
            None
        },
        _ => None,
    }
}

/// What a feed's duration string means, in seconds: an `H:MM:SS` triple,
/// an `M:SS` pair, or a plain count of seconds; anything else is None.
pub open spec fn parse_duration_spec(s: Seq<char>) -> Option<u64> {
    let parts = split_on(s, ':');
    if parts.len() == 3 {
        hms_total(
            parse_u64_spec(parts[0]),
            parse_u64_spec(parts[1]),
            parse_u64_spec(parts[2]),
        )
    } else if parts.len() == 2 {
        hms_total(Some(0u64), parse_u64_spec(parts[0]), parse_u64_spec(parts[1]))
    } else {
        parse_u64_spec(s)
    }
}

pub proof fn lemma_first_index_bounds(s: Seq<char>, sep: char)
    ensures
        0 <= first_index(s, sep) <= s.len(),
        first_index(s, sep) < s.len() ==> s[first_index(s, sep)] == sep,
    decreases s.len(),
{
    if s.len() > 0 && s[0] != sep {
        lemma_first_index_bounds(s.skip(1), sep);
    }
}

/// A string containing a separator is not a plain numeral.
proof fn lemma_sep_not_numeral(s: Seq<char>, sep: char)
    requires
        first_index(s, sep) < s.len(),
        !is_digit_char(sep),
        sep != '+',
    ensures
        parse_u64_spec(s) == None::<u64>,
{
    lemma_first_index_bounds(s, sep);
    let i = first_index(s, sep);
    let d = numeral_body(s);
    if s.len() > 0 && s[0] == '+' {
        assert(i >= 1);
        assert(d[i - 1] == sep);
        assert(!is_digit_char(d[i - 1]));
    } else {
        assert(d[i] == sep);
    }
}

/// The split of a string with no separator, and the length bound the
/// split always meets.
proof fn lemma_split_len(s: Seq<char>, sep: char)
    ensures
        split_on(s, sep).len() >= 1,
        split_on(s, sep).len() >= 2 ==> first_index(s, sep) < s.len(),
    decreases s.len(),
{
    lemma_first_index_bounds(s, sep);
}

/// Parses `H:MM:SS`, `M:SS` or plain seconds, like the feed extension
/// declares them; None for anything else, including a total that would
/// not fit in 64 bits of seconds.
pub fn parse_duration(duration_str: &str) -> (seconds: Option<u64>)
    ensures
        seconds == parse_duration_spec(duration_str@),
{
    if let Some(d) = parse_hhmmss(duration_str) {
        return Some(d);
    }
    if let Some(d) = parse_mmss(duration_str) {
        return Some(d);
    }
    proof {
        lemma_split_len(duration_str@, ':');
        if split_on(duration_str@, ':').len() >= 2 {
            lemma_sep_not_numeral(duration_str@, ':');
        }
    }
    parse_u64_str(duration_str)
}

/// Combines an hour, minute and second count, refusing a sum that cannot
/// be represented.
fn combine_hms(h: u64, m: u64, s: u64) -> (total: Option<u64>)
    ensures
        total == hms_total(Some(h), Some(m), Some(s)),
{
    let wide: u128 = h as u128 * 3600 + m as u128 * 60 + s as u128;
    if wide > u64::MAX as u128 {
        None
    } else {
        Some(wide as u64)
    }
}

fn parse_hhmmss(duration_str: &str) -> (seconds: Option<u64>)
    ensures
        seconds == (if split_on(duration_str@, ':').len() == 3 {
            parse_duration_spec(duration_str@)
        } else {
            None::<u64>
        }),
{
    let parts = split_on_str(duration_str, ':');
    if parts.len() == 3 {
        let h = parse_u64_str(parts[0].as_str());
        let m = parse_u64_str(parts[1].as_str());
        let s = parse_u64_str(parts[2].as_str());
        match (h, m, s) {
            (Some(h), Some(m), Some(s)) => combine_hms(h, m, s),
            _ => None,
        }
    } else {
        None
    }
}

fn parse_mmss(duration_str: &str) -> (seconds: Option<u64>)
    ensures
        seconds == (if split_on(duration_str@, ':').len() == 2 {
            parse_duration_spec(duration_str@)
        } else {
            None::<u64>
        }),
{
    let parts = split_on_str(duration_str, ':');
    if parts.len() == 2 {
        let m = parse_u64_str(parts[0].as_str());
        let s = parse_u64_str(parts[1].as_str());
        match (m, s) {
            (Some(m), Some(s)) => combine_hms(0, m, s),
            _ => None,
        }
    } else {
        None
    }
}

// ---------------------------------------------------------------------------
// Feed items
// ---------------------------------------------------------------------------
/// One raw feed entry, reduced to the plain fields this library reads: the
/// texts, the enclosure's URL and declared type, and the duration string
/// of the podcast extension.
pub struct FeedItem {
    pub title: Option<String>,
    pub link: Option<String>,
    pub description: Option<String>,
    pub pub_date: Option<String>,
    pub enclosure_url: Option<String>,
    pub enclosure_mime: Option<String>,
    pub itunes_duration: Option<String>,
}

/// The declared type names an audio format: it starts with `audio/`.
pub open spec fn has_audio_prefix(mime: Seq<char>) -> bool {
    mime.len() >= 6 && mime.subrange(0, 6) == "audio/"@
}

pub fn mime_is_audio(mime: &str) -> (r: bool)
    ensures
        r == has_audio_prefix(mime@),
{
    proof {
        reveal_strlit("audio/");
    }
    if mime.unicode_len() < 6 {
        return false;
    }
    let r = mime.get_char(0) == 'a' && mime.get_char(1) == 'u' && mime.get_char(2) == 'd'
        && mime.get_char(3) == 'i' && mime.get_char(4) == 'o' && mime.get_char(5) == '/';
    proof {
        if r {
            assert(mime@.subrange(0, 6) =~= "audio/"@);
        } else {
            if mime@.subrange(0, 6) == "audio/"@ {
                assert(forall|j: int| 0 <= j < 6 ==> mime@[j] == "audio/"@[j]) by {
                    assert(forall|j: int| 0 <= j < 6 ==> mime@.subrange(0, 6)[j] == mime@[j]);
                }
                assert(false);
            }
        }
    }
    r
}

/// The episode a feed entry yields: None without a title or an enclosure;
/// otherwise the texts carried over, the enclosure URL kept as the audio
/// URL only when its declared type is audio, and the duration string
/// parsed to seconds.
pub open spec fn from_item_spec(item: FeedItem) -> Option<Episode> {
    match (item.title, item.enclosure_url, item.enclosure_mime) {
        (Some(title), Some(url), Some(mime)) => Some(
            Episode {
                title: title,
                link: item.link,
                description: item.description,
                pub_date: item.pub_date,
                duration: match item.itunes_duration {
                    Some(d) => parse_duration_spec(d@),
                    None => None,
                },
                audio_url: if has_audio_prefix(mime@) {
                    Some(url)
                } else {
                    None
                },
            },
        ),
        _ => None,
    }
}

impl Episode {
    /// Builds the episode a feed entry describes, or None when the entry
    /// carries no title or no enclosure.
    pub fn from_item(item: FeedItem) -> (episode: Option<Episode>)
        ensures
            episode == from_item_spec(item),
    {
        let FeedItem {
            title,
            link,
            description,
            pub_date,
            enclosure_url,
            enclosure_mime,
            itunes_duration,
        } = item;
        match (title, enclosure_url, enclosure_mime) {
            (Some(title), Some(url), Some(mime)) => {
                let audio_url = if mime_is_audio(mime.as_str()) {
                    Some(url)
                } else {
                    None
                };
                let duration = match itunes_duration {
                    Some(d) => parse_duration(d.as_str()),
                    None => None,
                };
                Some(Episode { title, link, description, pub_date, duration, audio_url })
            },
            _ => None,
        }
    }
}

// ---------------------------------------------------------------------------
// Whole feeds
// ---------------------------------------------------------------------------
/// Whether the bytes form a well-formed RSS document. The parse depends on
/// the bytes alone; what "well-formed" is belongs to the parsing library.
pub uninterp spec fn feed_parse_ok(bytes: Seq<u8>) -> bool;

/// The entries of a well-formed RSS document, reduced to the fields this
/// library reads, in document order. Meaningful where `feed_parse_ok`
/// holds of the same bytes.
pub uninterp spec fn feed_items_of(bytes: Seq<u8>) -> Seq<FeedItem>;

/// Relies on rss::Channel::read_from and rss::Channel::into_items, and on
/// the public fields of rss::Item, rss::Enclosure and the item's podcast
/// extension: parses an RSS document and hands its entries out as plain
/// values, one for one. The parse is a function of the bytes alone: it
/// succeeds exactly on `feed_parse_ok`, and its entries are exactly
/// `feed_items_of`.
#[verifier::external_body]
fn read_feed_items(bytes: &Vec<u8>) -> (items: Option<Vec<FeedItem>>)
    ensures
        items is Some <==> feed_parse_ok(bytes@),
        items matches Some(v) ==> v@ == feed_items_of(bytes@),
{
    match rss::Channel::read_from(bytes.as_slice()) {
        Err(_) => None,
        Ok(channel) => Some(channel.into_items().iter().map(|item| FeedItem {
            title: item.title.clone(),
            link: item.link.clone(),
            description: item.description.clone(),
            pub_date: item.pub_date.clone(),
            enclosure_url: item.enclosure.as_ref().map(|e| e.url.clone()),
            enclosure_mime: item.enclosure.as_ref().map(|e| e.mime_type.clone()),
            itunes_duration: item.itunes_ext.as_ref().and_then(|x| x.duration.clone()),
        }).collect()),
    }
}

/// The episodes of a sequence of feed entries, in order, entries without
/// a title or an enclosure left out.
pub open spec fn episodes_spec(items: Seq<FeedItem>) -> Seq<Episode>
    decreases items.len(),
{
    if items.len() == 0 {
        Seq::empty()
    } else {
        let rest = episodes_spec(items.drop_last());
        match from_item_spec(items.last()) {
            Some(e) => rest.push(e),
            None => rest,
        }
    }
}

/// Extracts the episodes of a list of feed entries, keeping their order.
pub fn episodes_from_items(items: Vec<FeedItem>) -> (episodes: Vec<Episode>)
    ensures
        episodes@ == episodes_spec(items@),
{
    let ghost orig = items@;
    let mut items = items;
    let mut episodes: Vec<Episode> = Vec::new();
    let ghost k: int = 0;
    proof {
        assert(orig.subrange(0, 0) =~= Seq::<FeedItem>::empty());
        assert(items@ =~= orig.subrange(0, orig.len() as int));
    }
    while items.len() > 0
        invariant
            0 <= k <= orig.len(),
            items@ =~= orig.subrange(k, orig.len() as int),
            episodes@ == episodes_spec(orig.subrange(0, k)),
        decreases items.len(),
    {
        let item = items.remove(0);
        proof {
            assert(item == orig[k]);
            assert(orig.subrange(0, k + 1).drop_last() =~= orig.subrange(0, k));
            assert(orig.subrange(0, k + 1).last() == orig[k]);
        }
        match Episode::from_item(item) {
            Some(e) => {
                episodes.push(e);
            },
            None => {
            },
        }
        proof {
            k = k + 1;
            assert(items@ =~= orig.subrange(k, orig.len() as int));
        }
    }
    proof {
        assert(orig.subrange(0, orig.len() as int) =~= orig);
    }
    episodes
}

/// Parses a fetched RSS document and extracts its episodes: None exactly
/// when the bytes are not a well-formed feed, and otherwise exactly the
/// episode extraction of the document's entries.
pub fn episodes_from_feed(bytes: &Vec<u8>) -> (episodes: Option<Vec<Episode>>)
    ensures
        episodes is Some <==> feed_parse_ok(bytes@),
        episodes matches Some(eps) ==> eps@ == episodes_spec(feed_items_of(bytes@)),
{
    match read_feed_items(bytes) {
        None => None,
        Some(items) => Some(episodes_from_items(items)),
    }
}

// ---------------------------------------------------------------------------
// The feed list
// ---------------------------------------------------------------------------
/// A line of the feed-list file names a feed: it is not blank and not a
/// comment (a first significant character of `#`, or a `//` or `--` pair).
pub open spec fn keep_line_spec(line: Seq<char>) -> bool {
    let t = trimmed(line);
    &&& t.len() > 0
    &&& t[0] != '#'
    &&& !(t.len() >= 2 && t[0] == '/' && t[1] == '/')
    &&& !(t.len() >= 2 && t[0] == '-' && t[1] == '-')
}

/// The kept lines, each reduced to its trimmed text, in order.
pub open spec fn kept_lines(lines: Seq<Seq<char>>) -> Seq<Seq<char>>
    decreases lines.len(),
{
    if lines.len() == 0 {
        Seq::empty()
    } else {
        let rest = kept_lines(lines.drop_last());
        if keep_line_spec(lines.last()) {
            rest.push(trimmed(lines.last()))
        } else {
            rest
        }
    }
}

/// The feed URLs a feed-list text names: its lines without blanks and
/// comments, each trimmed.
pub open spec fn feed_urls_spec(content: Seq<char>) -> Seq<Seq<char>> {
    kept_lines(split_on(content, '\n'))
}

/// Reads the feed URLs out of the text of a feed-list file: one URL per
/// line, blank lines and comment lines (`#`, `//`, `--`) ignored, and
/// surrounding whitespace removed.
pub fn parse_feed_list(content: &str) -> (urls: Vec<String>)
    ensures
        urls.deep_view() == feed_urls_spec(content@),
{
    let lines = split_on_str(content, '\n');
    let ghost all = lines.deep_view();
    let mut urls: Vec<String> = Vec::new();
    let mut i: usize = 0;
    proof {
        assert(all.subrange(0, 0) =~= Seq::<Seq<char>>::empty());
    }
    while i < lines.len()
        invariant
            0 <= i <= lines.len(),
            all == lines.deep_view(),
            all == split_on(content@, '\n'),
            urls.deep_view() == kept_lines(all.subrange(0, i as int)),
        decreases lines.len() - i,
    {
        let t = trim_str(lines[i].as_str());
        let tl = t.as_str().unicode_len();
        let keep = if tl == 0 {
            false
        } else {
            let c0 = t.as_str().get_char(0);
            c0 != '#' && !(tl >= 2 && c0 == '/' && t.as_str().get_char(1) == '/') && !(tl >= 2
                && c0 == '-' && t.as_str().get_char(1) == '-')
        };
        let ghost prev = urls.deep_view();
        proof {
            assert(all.subrange(0, i + 1).drop_last() =~= all.subrange(0, i as int));
            assert(all.subrange(0, i + 1).last() == lines[i as int]@);
            assert(keep == keep_line_spec(lines[i as int]@));
        }
        if keep {
            urls.push(t);
            proof {
                assert(urls.deep_view() =~= prev.push(trimmed(lines[i as int]@)));
            }
        }
        i = i + 1;
    }
    proof {
        assert(all.subrange(0, all.len() as int) =~= all);
    }
    urls
}

// ---------------------------------------------------------------------------
// Presentation
// ---------------------------------------------------------------------------
/// An `HH:MM:SS` rendering of a duration in seconds, each part padded to
/// two digits.
pub open spec fn duration_hms(secs: int) -> Seq<char> {
    dec2_str(secs / 3600) + ":"@ + dec2_str((secs % 3600) / 60) + ":"@ + dec2_str(secs % 60)
}

/// A description cut to its first 200 characters, with an ellipsis when
/// anything was cut. The cut counts characters, not bytes, so it can
/// never split one.
pub open spec fn truncated_description(desc: Seq<char>) -> Seq<char> {
    if desc.len() > 200 {
        desc.subrange(0, 200) + "..."@
    } else {
        desc
    }
}

/// The episode's display card: its title and every known detail, one
/// detail per line.
pub open spec fn pretty_print_spec(e: Episode) -> Seq<char> {
    let s = "🎙️  Title: "@ + e.title@;
    let s = match e.link {
        Some(l) => s + "\n🔗  Link: "@ + l@,
        None => s,
    };
    let s = match e.pub_date {
        Some(p) => s + "\n📅  Published: "@ + p@,
        None => s,
    };
    let s = match e.duration {
        Some(d) => s + "\n⏱️  Duration: "@ + duration_hms(d as int),
        None => s,
    };
    let s = match e.audio_url {
        Some(u) => s + "\n🎧  Audio URL: "@ + u@,
        None => s,
    };
    match e.description {
        Some(desc) => s + "\n📝  Description: "@ + truncated_description(desc@),
        None => s,
    }
}

/// Renders an episode for display, one known detail per line.
#[verifier::rlimit(60)]
pub fn pretty_print(episode: &Episode) -> (card: String)
    ensures
        card@ == pretty_print_spec(*episode),
{
    let mut out = String::new();
    out.append("🎙️  Title: ");
    out.append(episode.title.as_str());
    match &episode.link {
        Some(l) => {
            out.append("\n🔗  Link: ");
            out.append(l.as_str());
        },
        None => {
        },
    }
    match &episode.pub_date {
        Some(p) => {
            out.append("\n📅  Published: ");
            out.append(p.as_str());
        },
        None => {
        },
    }
    match &episode.duration {
        Some(d) => {
            out.append("\n⏱️  Duration: ");
            let hours = fmt_u64_pad2(*d / 3600);
            let minutes = fmt_u64_pad2((*d % 3600) / 60);
            let secs = fmt_u64_pad2(*d % 60);
            out.append(hours.as_str());
            out.append(":");
            out.append(minutes.as_str());
            out.append(":");
            out.append(secs.as_str());
        },
        None => {
        },
    }
    match &episode.audio_url {
        Some(u) => {
            out.append("\n🎧  Audio URL: ");
            out.append(u.as_str());
        },
        None => {
        },
    }
    match &episode.description {
        Some(desc) => {
            out.append("\n📝  Description: ");
            let dn = desc.as_str().unicode_len();
            if dn > 200 {
                let cut = desc.as_str().substring_char(0, 200);
                out.append(cut);
                out.append("...");
            } else {
                out.append(desc.as_str());
            }
        },
        None => {
        },
    }
    proof {
        assert(out@ =~= pretty_print_spec(*episode));
    }
    out
}

} // verus!
