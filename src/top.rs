use vstd::prelude::*;
use crate::model::{
    ArtistInfo, SpotifyArtistImage, SpotifyArtistItem, SpotifyArtistResponse, SpotifyTrackAlbumImage,
    SpotifyTrackArtist, SpotifyTrackItem, SpotifyTrackResponse, TopRequestParams, TrackInfo,
};

verus! {

/// Status code of every failed top-items request.
pub const INTERNAL_SERVER_ERROR: u16 = 500;

/// An HTTP status in the success class (2xx).
pub open spec fn is_success(status: u16) -> bool {
    200 <= status <= 299
}

/// The time window asked for when the caller names none.
pub open spec fn default_range() -> Seq<char> {
    "long_term"@
}

/// The time window sent upstream for an optional caller choice.
pub open spec fn range_of(range: Option<String>) -> Seq<char> {
    match range {
        Some(r) => r@,
        None => default_range(),
    }
}

/// Upstream "top items" address for `kind` ("tracks" or "artists"), a page of 50.
pub open spec fn top_url(kind: Seq<char>, range: Seq<char>) -> Seq<char> {
    "https://api.spotify.com/v1/me/top/"@ + kind + "?time_range="@ + range + "&limit=50"@
}

pub open spec fn strings_view(v: Seq<String>) -> Seq<Seq<char>> {
    v.map_values(|s: String| s@)
}

pub open spec fn album_image_url(images: Seq<SpotifyTrackAlbumImage>) -> Seq<char> {
    if images.len() == 0 {
        Seq::empty()
    } else {
        images[0].url@
    }
}

pub open spec fn artist_image_url(images: Seq<SpotifyArtistImage>) -> Seq<char> {
    if images.len() == 0 {
        Seq::empty()
    } else {
        images[0].url@
    }
}

pub open spec fn artist_names(artists: Seq<SpotifyTrackArtist>) -> Seq<Seq<char>> {
    artists.map_values(|a: SpotifyTrackArtist| a.name@)
}

/// `t` is the front-end record of the upstream track `item`.
pub open spec fn track_projects(t: TrackInfo, item: SpotifyTrackItem) -> bool {
    &&& t.name@ == item.name@
    &&& t.album_image_url@ == album_image_url(item.album.images@)
    &&& strings_view(t.artist_names@) == artist_names(item.artists@)
}

/// `a` is the front-end record of the upstream artist `item`.
pub open spec fn artist_projects(a: ArtistInfo, item: SpotifyArtistItem) -> bool {
    &&& a.name@ == item.name@
    &&& a.artist_image_url@ == artist_image_url(item.images@)
    &&& a.artist_followers == item.followers.total
    &&& a.artist_profile_link@ == item.href@
}

/// `v` holds the front-end records of `items`, one for one and in order.
pub open spec fn tracks_project(v: Seq<TrackInfo>, items: Seq<SpotifyTrackItem>) -> bool {
    &&& v.len() == items.len()
    &&& forall|i: int| 0 <= i < v.len() ==> track_projects(#[trigger] v[i], items[i])
}

/// `v` holds the front-end records of `items`, one for one and in order.
pub open spec fn artists_project(v: Seq<ArtistInfo>, items: Seq<SpotifyArtistItem>) -> bool {
    &&& v.len() == items.len()
    &&& forall|i: int| 0 <= i < v.len() ==> artist_projects(#[trigger] v[i], items[i])
}

/// The time window for an optional caller choice, "long_term" when absent.
pub fn time_range(range: &Option<String>) -> (r: String)
    ensures
        r@ == range_of(*range),
{
    match range {
        Some(s) => s.clone(),
        None => String::from_str("long_term"),
    }
}

fn top_items_url(kind: &str, params: &TopRequestParams) -> (r: String)
    ensures
        r@ == top_url(kind@, range_of(params.range)),
{
    let range = time_range(&params.range);
    let mut url = String::from_str("https://api.spotify.com/v1/me/top/");
    url.append(kind);
    url.append("?time_range=");
    url.append(range.as_str());
    url.append("&limit=50");
    url
}

/// Upstream address of the caller's top tracks.
pub fn top_tracks_url(params: &TopRequestParams) -> (r: String)
    ensures
        r@ == top_url("tracks"@, range_of(params.range)),
{
    top_items_url("tracks", params)
}

/// Upstream address of the caller's top artists.
pub fn top_artists_url(params: &TopRequestParams) -> (r: String)
    ensures
        r@ == top_url("artists"@, range_of(params.range)),
{
    top_items_url("artists", params)
}

/// Front-end record of one upstream track: its name, its album's first
/// image (empty when the album has none) and its artists' names in order.
pub fn track_info_of(item: &SpotifyTrackItem) -> (t: TrackInfo)
    ensures
        track_projects(t, *item),
        item.album.images@.len() == 0 ==> t.album_image_url@ == Seq::<char>::empty(),
{
    let album_image_url = if item.album.images.len() == 0 {
        String::new()
    } else {
        item.album.images[0].url.clone()
    };
    let mut names: Vec<String> = Vec::new();
    let n = item.artists.len();
    for i in 0..n
        invariant
            n == item.artists@.len(),
            names@.len() == i,
            forall|j: int| 0 <= j < i ==> (#[trigger] names@[j])@ == item.artists@[j].name@,
    {
        names.push(item.artists[i].name.clone());
    }
    assert(strings_view(names@) =~= artist_names(item.artists@));
    TrackInfo { name: item.name.clone(), album_image_url, artist_names: names }
}

/// Front-end record of one upstream artist: its name, its first image
/// (empty when it has none), its follower count and its profile link.
pub fn artist_info_of(item: &SpotifyArtistItem) -> (a: ArtistInfo)
    ensures
        artist_projects(a, *item),
        item.images@.len() == 0 ==> a.artist_image_url@ == Seq::<char>::empty(),
{
    let artist_image_url = if item.images.len() == 0 {
        String::new()
    } else {
        item.images[0].url.clone()
    };
    ArtistInfo {
        name: item.name.clone(),
        artist_image_url,
        artist_followers: item.followers.total,
        artist_profile_link: item.href.clone(),
    }
}

/// Projects every upstream track, in order.
pub fn tracks_of(resp: &SpotifyTrackResponse) -> (r: Vec<TrackInfo>)
    ensures
        tracks_project(r@, resp.items@),
{
    let mut out: Vec<TrackInfo> = Vec::new();
    let n = resp.items.len();
    for i in 0..n
        invariant
            n == resp.items@.len(),
            out@.len() == i,
            forall|j: int| 0 <= j < i ==> track_projects(#[trigger] out@[j], resp.items@[j]),
    {
        out.push(track_info_of(&resp.items[i]));
    }
    out
}

/// Projects every upstream artist, in order.
pub fn artists_of(resp: &SpotifyArtistResponse) -> (r: Vec<ArtistInfo>)
    ensures
        artists_project(r@, resp.items@),
{
    let mut out: Vec<ArtistInfo> = Vec::new();
    let n = resp.items.len();
    for i in 0..n
        invariant
            n == resp.items@.len(),
            out@.len() == i,
            forall|j: int| 0 <= j < i ==> artist_projects(#[trigger] out@[j], resp.items@[j]),
    {
        out.push(artist_info_of(&resp.items[i]));
    }
    out
}

/// A top-tracks record made from an upstream track whose album has no image
/// carries the empty string as its image address.
pub proof fn lemma_track_without_images_has_empty_url(
    v: Seq<TrackInfo>,
    items: Seq<SpotifyTrackItem>,
    i: int,
)
    requires
        tracks_project(v, items),
        0 <= i < items.len(),
        items[i].album.images@.len() == 0,
    ensures
        v[i].album_image_url@ == Seq::<char>::empty(),
{
    assert(track_projects(v[i], items[i]));
}

/// A top-artists record made from an upstream artist without images
/// carries the empty string as its image address.
pub proof fn lemma_artist_without_images_has_empty_url(
    v: Seq<ArtistInfo>,
    items: Seq<SpotifyArtistItem>,
    i: int,
)
    requires
        artists_project(v, items),
        0 <= i < items.len(),
        items[i].images@.len() == 0,
    ensures
        v[i].artist_image_url@ == Seq::<char>::empty(),
{
    assert(artist_projects(v[i], items[i]));
}

/// With no range given, both top-items addresses ask for the long-term window.
pub proof fn lemma_missing_range_is_long_term(params: TopRequestParams)
    requires
        params.range is None,
    ensures
        top_url("tracks"@, range_of(params.range)) == top_url("tracks"@, "long_term"@),
        top_url("artists"@, range_of(params.range)) == top_url("artists"@, "long_term"@),
{
}

/// Reply of the top-tracks route once upstream has answered with `status`
/// and a body that decoded to `parsed` (`None`: it did not decode). Any
/// non-2xx status or undecodable body is an internal server error.
pub fn top_tracks_reply(status: u16, parsed: &Option<SpotifyTrackResponse>) -> (r: Result<
    Vec<TrackInfo>,
    u16,
>)
    ensures
        r is Ok <==> (is_success(status) && parsed is Some),
        r matches Ok(v) ==> tracks_project(v@, parsed->Some_0.items@),
        r matches Err(code) ==> code == INTERNAL_SERVER_ERROR,
{
    if status < 200 || status > 299 {
        return Err(INTERNAL_SERVER_ERROR);
    }
    match parsed {
        Some(resp) => Ok(tracks_of(resp)),
        None => Err(INTERNAL_SERVER_ERROR),
    }
}

/// Reply of the top-artists route once upstream has answered with `status`
/// and a body that decoded to `parsed` (`None`: it did not decode). Any
/// non-2xx status or undecodable body is an internal server error.
pub fn top_artists_reply(status: u16, parsed: &Option<SpotifyArtistResponse>) -> (r: Result<
    Vec<ArtistInfo>,
    u16,
>)
    ensures
        r is Ok <==> (is_success(status) && parsed is Some),
        r matches Ok(v) ==> artists_project(v@, parsed->Some_0.items@),
        r matches Err(code) ==> code == INTERNAL_SERVER_ERROR,
{
    if status < 200 || status > 299 {
        return Err(INTERNAL_SERVER_ERROR);
    }
    match parsed {
        Some(resp) => Ok(artists_of(resp)),
        None => Err(INTERNAL_SERVER_ERROR),
    }
}

} // verus!
