//! The compute side of the metadata proxy endpoints: cache keys, upstream
//! URLs, upstream-status decisions, and the de-duplicated merge of the
//! trending lists. The HTTP calls themselves happen outside the library.

use vstd::prelude::*;
use crate::text::{dec_of, dec_u64, str_eq};
use vstd::string::{StringExecFns, StrSliceExecFns};

verus! {

/// What `urlencoding::encode` returns for a string: a function of its
/// characters alone.
pub uninterp spec fn url_encoded(s: Seq<char>) -> Seq<char>;

/// Relies on `urlencoding::encode`: percent-encodes every byte except
/// alphanumerics and `-`, `_`, `.`, `~`; the result depends on the input
/// characters alone, and an empty input stays empty.
#[verifier::external_body]
fn encode_component(s: &str) -> (r: String)
    ensures
        r@ == url_encoded(s@),
        s@.len() == 0 ==> r@.len() == 0,
{
    urlencoding::encode(s).into_owned()
}

/// The default page number for a search query when none is supplied.
pub fn default_page() -> (r: u32)
    ensures
        r == 1u32,
{
    1
}

/// The default result type for a search query when none is supplied.
pub fn default_type() -> (r: String)
    ensures
        r@ == "movie"@,
{
    String::from_str("movie")
}

/// The cache key of a search query: the raw query, page and type.
pub fn search_cache_key(q: &str, page: u32, kind: &str) -> (r: String)
    ensures
        r@ == "search:q="@ + q@ + ":page="@ + dec_of(page as nat) + ":type="@ + kind@,
{
    let mut out = String::from_str("search:q=");
    out.append(q);
    out.append(":page=");
    out.append(dec_u64(page as u64).as_str());
    out.append(":type=");
    out.append(kind);
    out
}

/// The upstream URL of a search query, with the query and type
/// percent-encoded.
pub fn search_url(api_key: &str, q: &str, page: u32, kind: &str) -> (r: String)
    ensures
        r@ == "https://www.omdbapi.com/?apikey="@ + api_key@ + "&s="@ + url_encoded(q@) + "&page="@
            + dec_of(page as nat) + "&type="@ + url_encoded(kind@) + "&r=json"@,
{
    let mut out = String::from_str("https://www.omdbapi.com/?apikey=");
    out.append(api_key);
    out.append("&s=");
    out.append(encode_component(q).as_str());
    out.append("&page=");
    out.append(dec_u64(page as u64).as_str());
    out.append("&type=");
    out.append(encode_component(kind).as_str());
    out.append("&r=json");
    out
}

/// The cache key of a title-details lookup.
pub fn detail_cache_key(imdb_id: &str) -> (r: String)
    ensures
        r@ == "detail:"@ + imdb_id@,
{
    String::from_str("detail:").concat(imdb_id)
}

/// The upstream URL of a title-details lookup, with the id
/// percent-encoded.
pub fn detail_url(api_key: &str, imdb_id: &str) -> (r: String)
    ensures
        r@ == "https://www.omdbapi.com/?apikey="@ + api_key@ + "&i="@ + url_encoded(imdb_id@)
            + "&plot=full&r=json"@,
{
    let mut out = String::from_str("https://www.omdbapi.com/?apikey=");
    out.append(api_key);
    out.append("&i=");
    out.append(encode_component(imdb_id).as_str());
    out.append("&plot=full&r=json");
    out
}

/// The upstream URL of a by-title lookup, with the title percent-encoded.
pub fn title_url(api_key: &str, title: &str) -> (r: String)
    ensures
        r@ == "https://www.omdbapi.com/?apikey="@ + api_key@ + "&t="@ + url_encoded(title@)
            + "&r=json"@,
{
    let mut out = String::from_str("https://www.omdbapi.com/?apikey=");
    out.append(api_key);
    out.append("&t=");
    out.append(encode_component(title).as_str());
    out.append("&r=json");
    out
}

/// The cache key of the torrent listing of a movie.
pub fn torrentio_movie_key(imdb_id: &str) -> (r: String)
    ensures
        r@ == "torrentio:movie:"@ + imdb_id@,
{
    String::from_str("torrentio:movie:").concat(imdb_id)
}

/// The upstream URL of the torrent listing of a movie.
pub fn torrentio_movie_url(imdb_id: &str) -> (r: String)
    ensures
        r@ == "https://torrentio.strem.fun/stream/movie/"@ + imdb_id@ + ".json"@,
{
    let mut out = String::from_str("https://torrentio.strem.fun/stream/movie/");
    out.append(imdb_id);
    out.append(".json");
    out
}

/// The cache key of the torrent listing of an episode.
pub fn torrentio_episode_key(imdb_id: &str, season: &str, episode: &str) -> (r: String)
    ensures
        r@ == "torrentio:show:"@ + imdb_id@ + ":S"@ + season@ + "E"@ + episode@,
{
    let mut out = String::from_str("torrentio:show:");
    out.append(imdb_id);
    out.append(":S");
    out.append(season);
    out.append("E");
    out.append(episode);
    out
}

/// The upstream URL of the torrent listing of an episode.
pub fn torrentio_episode_url(imdb_id: &str, season: &str, episode: &str) -> (r: String)
    ensures
        r@ == "https://torrentio.strem.fun/stream/series/"@ + imdb_id@ + "/"@ + season@ + "-"@
            + episode@ + "/.json"@,
{
    let mut out = String::from_str("https://torrentio.strem.fun/stream/series/");
    out.append(imdb_id);
    out.append("/");
    out.append(season);
    out.append("-");
    out.append(episode);
    out.append("/.json");
    out
}

/// The cache key of the merged trending listing.
pub fn trending_cache_key() -> (r: String)
    ensures
        r@ == "movies:trending"@,
{
    String::from_str("movies:trending")
}

/// The upstream URL of the weekly trending listing.
pub fn tmdb_trending_url(tmdb_key: &str) -> (r: String)
    ensures
        r@ == "https://api.themoviedb.org/3/trending/movie/week?api_key="@ + tmdb_key@,
{
    String::from_str("https://api.themoviedb.org/3/trending/movie/week?api_key=").concat(tmdb_key)
}

/// The upstream URL of the now-playing listing.
pub fn tmdb_now_playing_url(tmdb_key: &str) -> (r: String)
    ensures
        r@ == "https://api.themoviedb.org/3/movie/now_playing?api_key="@ + tmdb_key@
            + "&language=en-US&page=1"@,
{
    let mut out = String::from_str("https://api.themoviedb.org/3/movie/now_playing?api_key=");
    out.append(tmdb_key);
    out.append("&language=en-US&page=1");
    out
}

/// Why a proxy endpoint fails.
pub enum ProxyError {
    /// The upstream service answered badly; carries its message.
    Upstream(String),
    /// The request itself is unusable; carries the reason.
    BadRequest(String),
    /// An internal fault with nothing to tell the client.
    Internal,
}

impl ProxyError {
    /// The HTTP status code of each failure: bad gateway for an upstream
    /// fault, bad request for an unusable request, internal error else.
    pub fn status(&self) -> (r: u16)
        ensures
            self is Upstream ==> r == 502,
            self is BadRequest ==> r == 400,
            self is Internal ==> r == 500,
    {
        match self {
            ProxyError::Upstream(_) => 502,
            ProxyError::BadRequest(_) => 400,
            ProxyError::Internal => 500,
        }
    }

    /// The body text of each failure: the carried message, or a fixed one
    /// for an internal fault.
    pub fn message(self) -> (r: String)
        ensures
            match self {
                ProxyError::Upstream(m) => r@ == m@,
                ProxyError::BadRequest(m) => r@ == m@,
                ProxyError::Internal => r@ == "internal error"@,
            },
    {
        match self {
            ProxyError::Upstream(m) => m,
            ProxyError::BadRequest(m) => m,
            ProxyError::Internal => String::from_str("internal error"),
        }
    }
}

/// Whether an upstream reply declares itself failed: its `Response` field
/// is present and reads exactly `False`.
pub fn omdb_response_rejected(response_field: Option<&str>) -> (r: bool)
    ensures
        r == match response_field {
            Some(s) => s@ == "False"@,
            None => false,
        },
{
    match response_field {
        Some(s) => str_eq(s, "False"),
        None => false,
    }
}

/// The error to surface for a search reply: none when the reply's `ok`
/// field reads `True`, else the reply's own error message, or `unknown`
/// where it carries none.
pub fn omdb_search_error(ok: &str, error: Option<String>) -> (r: Option<String>)
    ensures
        ok@ == "True"@ ==> r is None,
        ok@ != "True"@ ==> match r {
            Some(m) => m@ == match error {
                Some(e) => e@,
                None => "unknown"@,
            },
            None => false,
        },
{
    if str_eq(ok, "True") {
        None
    } else {
        match error {
            Some(e) => Some(e),
            None => Some(String::from_str("unknown")),
        }
    }
}

/// The display title of a trending entry: its `title` field, else its
/// `name` field (a TV show), else empty — an entry whose chosen title is
/// empty is skipped.
pub fn chosen_title(title: Option<String>, name: Option<String>) -> (r: String)
    ensures
        match title {
            Some(t) => r@ == t@,
            None => match name {
                Some(n) => r@ == n@,
                None => r@.len() == 0,
            },
        },
{
    match title {
        Some(t) => t,
        None => match name {
            Some(n) => n,
            None => String::new(),
        },
    }
}

/// One entry of the merged trending listing.
pub struct MovieSummary {
    pub poster: String,
    pub title: String,
    pub kind: String,
    pub year: String,
    pub imdb_id: String,
}

/// Some entry of `s` carries this id.
pub open spec fn has_id(s: Seq<MovieSummary>, id: Seq<char>) -> bool {
    exists|i: int| 0 <= i < s.len() && #[trigger] s[i].imdb_id@ == id
}

/// No two entries of `s` share an id.
pub open spec fn distinct_ids(s: Seq<MovieSummary>) -> bool {
    forall|i: int, j: int|
        0 <= i < j < s.len() ==> #[trigger] s[i].imdb_id@ != #[trigger] s[j].imdb_id@
}

/// Append a candidate to the merged listing unless its id is already
/// there: the first occurrence of each id wins and order is kept, so a
/// listing with distinct ids stays that way.
pub fn trending_push(combined: &mut Vec<MovieSummary>, item: MovieSummary)
    ensures
        has_id(old(combined)@, item.imdb_id@) ==> final(combined)@ == old(combined)@,
        !has_id(old(combined)@, item.imdb_id@) ==> final(combined)@ == old(combined)@.push(item),
        distinct_ids(old(combined)@) ==> distinct_ids(final(combined)@),
{
    let n: usize = combined.len();
    let mut i: usize = 0;
    while i < n
        invariant
            0 <= i <= n,
            n == combined@.len(),
            combined@ == old(combined)@,
            forall|j: int| 0 <= j < i ==> #[trigger] combined@[j].imdb_id@ != item.imdb_id@,
        decreases n - i,
    {
        if str_eq(combined[i].imdb_id.as_str(), item.imdb_id.as_str()) {
            assert(has_id(combined@, item.imdb_id@));
            return ;
        }
        i = i + 1;
    }
    assert(!has_id(combined@, item.imdb_id@));
    let ghost pre = combined@;
    combined.push(item);
    proof {
        if distinct_ids(pre) {
            assert forall|a: int, b: int|
                0 <= a < b < combined@.len() implies #[trigger] combined@[a].imdb_id@
                != #[trigger] combined@[b].imdb_id@ by {
                if b == combined@.len() - 1 {
                    assert(combined@[a].imdb_id@ == pre[a].imdb_id@);
                }
            }
        }
    }
}

} // verus!
