use vstd::prelude::*;

verus! {

/// Access/refresh token pair returned by the upstream token endpoint.
pub struct TokenResponse {
    pub access_token: String,
    pub token_type: String,
    pub expires_in: u64,
    pub refresh_token: String,
    pub scope: String,
}

/// Query of the profile route: the caller's bearer token.
pub struct TokenQuery {
    pub access_token: String,
}

/// Query of the top-tracks and top-artists routes.
pub struct TopRequestParams {
    pub access_token: String,
    pub range: Option<String>,
}

/// A track as handed to the front end.
pub struct TrackInfo {
    pub name: String,
    pub album_image_url: String,
    pub artist_names: Vec<String>,
}

/// An artist as handed to the front end.
pub struct ArtistInfo {
    pub name: String,
    pub artist_image_url: String,
    pub artist_followers: u64,
    pub artist_profile_link: String,
}

/// Upstream shape: an artist credited on a track.
pub struct SpotifyTrackArtist {
    pub name: String,
}

/// Upstream shape: one image of an album.
pub struct SpotifyTrackAlbumImage {
    pub url: String,
}

/// Upstream shape: the album a track belongs to.
pub struct SpotifyTrackAlbum {
    pub images: Vec<SpotifyTrackAlbumImage>,
}

/// Upstream shape: one entry of the top-tracks list.
pub struct SpotifyTrackItem {
    pub name: String,
    pub artists: Vec<SpotifyTrackArtist>,
    pub album: SpotifyTrackAlbum,
}

/// Upstream shape: the top-tracks page.
pub struct SpotifyTrackResponse {
    pub items: Vec<SpotifyTrackItem>,
}

/// Upstream shape: one image of an artist.
pub struct SpotifyArtistImage {
    pub url: String,
}

/// Upstream shape: an artist's follower count.
pub struct SpotifyArtistFollowers {
    pub total: u64,
}

/// Upstream shape: one entry of the top-artists list.
pub struct SpotifyArtistItem {
    pub name: String,
    pub images: Vec<SpotifyArtistImage>,
    pub followers: SpotifyArtistFollowers,
    pub href: String,
}

/// Upstream shape: the top-artists page.
pub struct SpotifyArtistResponse {
    pub items: Vec<SpotifyArtistItem>,
}

} // verus!
