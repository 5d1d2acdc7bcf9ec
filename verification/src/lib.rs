//! A bridge between media-library managers and a release source for anime:
//! it answers Torznab queries by mapping TVDB and TMDB ids to AniList ids,
//! collecting the releases of those ids, telling their formats, and listing
//! them under titles that the managers know.
//!
//! The library holds the rules and the records; it neither reads nor sends
//! anything. Work that needs a service or a file is described as a run of
//! steps: a step tells its caller what to fetch, read or write, and the
//! caller hands back what came of it.

pub mod anilist;
pub mod browse;
pub mod config;
pub mod feed;
pub mod mapping;
pub mod query;
pub mod radarr;
pub mod releases;
pub mod runs;
pub mod search;
pub mod season;
pub mod sonarr;
pub mod sync;
pub mod text;
pub mod titles;
pub mod torznab;
pub mod weburl;
pub mod xml;
