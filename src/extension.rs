//! The sample provider: a synthetic catalog that applies the pagination
//! policy to its listings and builds every record from a shared template.
use vstd::prelude::*;

use crate::decimal::{decimal, decimal_string};
use crate::model::{
    Episode, EpisodeView, EpisodesPage, FilterCategory, ProviderError, ResourceDescriptor,
    ResourceView, Scheme, SearchFilter, Series, SeriesPage, SeriesView, Video, VideoView,
};
use crate::pagination::{calculate_pagination, page_has_next, page_offset, ITEMS_PER_PAGE};
use crate::provider::Extension;

verus! {

pub const SERIES_ID: &'static str = "spy-x-family";

pub const SERIES_TITLE: &'static str = "SPY x FAMILY";

pub const SERIES_TYPE: &'static str = "Series";

pub const SERIES_SYNOPSIS: &'static str = r#"
                World peace is at stake and secret agent Twilight must undergo his most difficult mission 
                yet—pretend to be a family man. Posing as a loving husband and father, he’ll infiltrate an 
                elite school to get close to a high-profile politician. He has the perfect cover, except his 
                wife’s a deadly assassin and neither knows each other’s identity. But someone does, his 
                adopted daughter who’s a telepath!
            "#;

pub const IMAGE_AUTHORITY: &'static str = "m.media-amazon.com";

pub const POSTER_PATH: &'static str = "/images/M/MV5BMDlmZGJkYTUtNDcwNi00YWMzLTkyNmMtOWQ3MzVhOTU5YWY0XkEyXkFqcGc@._V1_.jpg";

pub const EPISODE_ID: &'static str = "1";

pub const EPISODE_TITLE: &'static str = "OPERATION STRIX";

pub const EPISODE_DESCRIPTION: &'static str = r#"
                Twilight is an agent that works for WISE, Westalis's intelligence agency, and he is tasked with 
                investigating Desmond, who is in Ostania and planning to start a war. Twilight disguises himself 
                as the psychiatrist Loid Forger and adopts a girl named Anya so that he can enroll her into the 
                prestigious Eden College to get closer to his target. Unbeknownst to him, Anya is actually a 
                telepath who can read people's minds. One day, members of a mafia group that is after Twilight 
                kidnaps Anya. Loid realizes that he needs to reconsider his priorities and...
            "#;

pub const THUMBNAIL_PATH: &'static str = "/images/M/MV5BOTAxODZiYzAtOGRhOC00ZjlmLTkxYzEtMGZjNDE0MjcwZTc1XkEyXkFqcGc@._V1_.jpg";

pub const VIDEO_AUTHORITY: &'static str = "commondatastorage.googleapis.com";

pub const VIDEO_PATH: &'static str = "/gtv-videos-bucket/sample/BigBuckBunny.mp4";

pub const VIDEO_SERVER: &'static str = "Google";

/// The series poster.
pub open spec fn poster_view() -> ResourceView {
    ResourceView { scheme: Scheme::Https, authority: IMAGE_AUTHORITY@, path_with_query: POSTER_PATH@ }
}

/// The episode thumbnail.
pub open spec fn thumbnail_view() -> ResourceView {
    ResourceView {
        scheme: Scheme::Https,
        authority: IMAGE_AUTHORITY@,
        path_with_query: THUMBNAIL_PATH@,
    }
}

/// The series template under the given identifier.
pub open spec fn series_with_id(id: Seq<char>) -> SeriesView {
    SeriesView {
        id,
        title: SERIES_TITLE@,
        poster_resource: Some(poster_view()),
        synopsis: Some(SERIES_SYNOPSIS@),
        type_: Some(SERIES_TYPE@),
    }
}

/// The episode template under the given identifier and number.
pub open spec fn episode_with(id: Seq<char>, number: u16) -> EpisodeView {
    EpisodeView {
        id,
        number,
        title: Some(EPISODE_TITLE@),
        thumbnail_resource: Some(thumbnail_view()),
        description: Some(EPISODE_DESCRIPTION@),
    }
}

/// The one playable source of every episode.
pub open spec fn video_view() -> VideoView {
    VideoView {
        http_resource: ResourceView {
            scheme: Scheme::Https,
            authority: VIDEO_AUTHORITY@,
            path_with_query: VIDEO_PATH@,
        },
        server: VIDEO_SERVER@,
        resolution: (0, 0),
    }
}

/// Identifier of the item at position `i` (0-based) of the page that
/// starts at `offset`: the decimal text of `offset + i + 1`.
pub open spec fn item_id(offset: nat, i: int) -> Seq<char> {
    decimal((offset + i + 1) as nat)
}

/// A provider that answers from a synthetic catalog. It holds no state.
pub struct TestingExtension;

impl TestingExtension {
    fn sample_series() -> (r: Series)
        ensures
            r@ == series_with_id(SERIES_ID@),
    {
        proof {
            reveal_strlit("m.media-amazon.com");
            reveal_strlit("/images/M/MV5BMDlmZGJkYTUtNDcwNi00YWMzLTkyNmMtOWQ3MzVhOTU5YWY0XkEyXkFqcGc@._V1_.jpg");
        }
        let poster = ResourceDescriptor::from_valid_parts(Scheme::Https, IMAGE_AUTHORITY, POSTER_PATH);
        Series {
            id: SERIES_ID.to_owned(),
            title: SERIES_TITLE.to_owned(),
            poster_resource: Some(poster),
            synopsis: Some(SERIES_SYNOPSIS.to_owned()),
            type_: Some(SERIES_TYPE.to_owned()),
        }
    }

    fn sample_episode() -> (r: Episode)
        ensures
            r@ == episode_with(EPISODE_ID@, 1),
    {
        proof {
            reveal_strlit("m.media-amazon.com");
            reveal_strlit("/images/M/MV5BOTAxODZiYzAtOGRhOC00ZjlmLTkxYzEtMGZjNDE0MjcwZTc1XkEyXkFqcGc@._V1_.jpg");
        }
        let thumbnail = ResourceDescriptor::from_valid_parts(
            Scheme::Https,
            IMAGE_AUTHORITY,
            THUMBNAIL_PATH,
        );
        Episode {
            id: EPISODE_ID.to_owned(),
            number: 1,
            title: Some(EPISODE_TITLE.to_owned()),
            thumbnail_resource: Some(thumbnail),
            description: Some(EPISODE_DESCRIPTION.to_owned()),
        }
    }

    fn sample_video() -> (r: Video)
        ensures
            r@ == video_view(),
    {
        proof {
            reveal_strlit("commondatastorage.googleapis.com");
            reveal_strlit("/gtv-videos-bucket/sample/BigBuckBunny.mp4");
        }
        let resource = ResourceDescriptor::from_valid_parts(Scheme::Https, VIDEO_AUTHORITY, VIDEO_PATH);
        Video { http_resource: resource, server: VIDEO_SERVER.to_owned(), resolution: (0, 0) }
    }
}

#[allow(unused_variables)]
impl Extension for TestingExtension {
    /// The filter categories offered to `search`. This provider offers none
    /// and says so.
    fn filters() -> (r: Result<Vec<FilterCategory>, ProviderError>)
        ensures
            r matches Err(ProviderError::NotImplemented),
    {
        Err(ProviderError::NotImplemented)
    }

    /// One page of search results: twelve series whose identifiers are the
    /// decimal text of `offset + 1` to `offset + 12`, each otherwise the
    /// series template.
    fn search(query: String, page: Option<u16>, filters: Vec<SearchFilter>) -> (r: Result<
        SeriesPage,
        ProviderError,
    >)
        ensures
            r matches Ok(p) && {
                &&& p.series@.len() == ITEMS_PER_PAGE
                &&& forall|i: int|
                    0 <= i < p.series@.len() ==> #[trigger] p.series@[i]@ == series_with_id(
                        item_id(page_offset(page), i),
                    )
                &&& p.has_next_page == page_has_next(page)
            },
    {
        let (offset, has_next_page) = calculate_pagination(page);
        let mut series: Vec<Series> = Vec::new();
        let mut i: usize = 1;
        while i <= ITEMS_PER_PAGE
            invariant
                1 <= i <= ITEMS_PER_PAGE + 1,
                offset == page_offset(page),
                offset <= 65534 * 12,
                series@.len() == i - 1,
                forall|j: int|
                    0 <= j < series@.len() ==> #[trigger] series@[j]@ == series_with_id(
                        item_id(offset as nat, j),
                    ),
            decreases ITEMS_PER_PAGE + 1 - i,
        {
            let mut entry = Self::sample_series();
            entry.id = decimal_string(offset + i);
            series.push(entry);
            i = i + 1;
        }
        Ok(SeriesPage { series, has_next_page })
    }

    /// The record that `series_id` names: here always the series template.
    fn get_series_info(series_id: String) -> (r: Result<Series, ProviderError>)
        ensures
            r matches Ok(s) && s@ == series_with_id(SERIES_ID@),
    {
        Ok(Self::sample_series())
    }

    /// One page of a series' episodes: twelve episodes whose identifiers are
    /// the decimal text of `offset + 1` to `offset + 12`, numbered 1 to 12,
    /// each otherwise the episode template.
    fn get_series_episodes(series_id: String, page: Option<u16>) -> (r: Result<
        EpisodesPage,
        ProviderError,
    >)
        ensures
            r matches Ok(p) && {
                &&& p.episodes@.len() == ITEMS_PER_PAGE
                &&& forall|i: int|
                    0 <= i < p.episodes@.len() ==> #[trigger] p.episodes@[i]@ == episode_with(
                        item_id(page_offset(page), i),
                        (i + 1) as u16,
                    )
                &&& p.has_next_page == page_has_next(page)
            },
    {
        let (offset, has_next_page) = calculate_pagination(page);
        let mut episodes: Vec<Episode> = Vec::new();
        let mut i: usize = 1;
        while i <= ITEMS_PER_PAGE
            invariant
                1 <= i <= ITEMS_PER_PAGE + 1,
                offset == page_offset(page),
                offset <= 65534 * 12,
                episodes@.len() == i - 1,
                forall|j: int|
                    0 <= j < episodes@.len() ==> #[trigger] episodes@[j]@ == episode_with(
                        item_id(offset as nat, j),
                        (j + 1) as u16,
                    ),
            decreases ITEMS_PER_PAGE + 1 - i,
        {
            let mut entry = Self::sample_episode();
            entry.id = decimal_string(offset + i);
            entry.number = i as u16;
            episodes.push(entry);
            i = i + 1;
        }
        Ok(EpisodesPage { episodes, has_next_page })
    }

    /// The playable sources of an episode: never empty, each an HTTPS
    /// resource with a non-empty authority. Here always the one sample video.
    fn get_series_videos(series_id: String, episode_id: String) -> (r: Result<
        Vec<Video>,
        ProviderError,
    >)
        ensures
            r matches Ok(v) && {
                &&& v@.len() == 1
                &&& v@[0]@ == video_view()
                &&& forall|i: int|
                    0 <= i < v@.len() ==> {
                        &&& (#[trigger] v@[i]@).http_resource.scheme == Scheme::Https
                        &&& v@[i]@.http_resource.authority.len() > 0
                    }
            },
    {
        proof {
            reveal_strlit("commondatastorage.googleapis.com");
        }
        let mut videos: Vec<Video> = Vec::new();
        videos.push(Self::sample_video());
        Ok(videos)
    }
}

} // verus!
