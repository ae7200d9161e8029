//! The operations a host invokes on every provider, with the rules that all
//! providers share so that a host can treat them alike.
use vstd::prelude::*;

use crate::model::{
    EpisodesPage, FilterCategory, ProviderError, SearchFilter, Series, SeriesPage, Video,
};
use crate::pagination::{page_has_next, ITEMS_PER_PAGE};

verus! {

/// A catalog provider. Every page it returns holds at most one page size of
/// entries and announces a further page by the page number alone; every
/// list of playable sources it returns is non-empty.
pub trait Extension {
    /// The filter categories that `search` accepts.
    fn filters() -> (r: Result<Vec<FilterCategory>, ProviderError>);

    /// One page of series that match `query` under `filters`.
    fn search(query: String, page: Option<u16>, filters: Vec<SearchFilter>) -> (r: Result<
        SeriesPage,
        ProviderError,
    >)
        ensures
            r matches Ok(p) ==> p.series@.len() <= ITEMS_PER_PAGE && p.has_next_page
                == page_has_next(page),
    ;

    /// The record that `series_id` names.
    fn get_series_info(series_id: String) -> (r: Result<Series, ProviderError>);

    /// One page of the episodes of a series.
    fn get_series_episodes(series_id: String, page: Option<u16>) -> (r: Result<
        EpisodesPage,
        ProviderError,
    >)
        ensures
            r matches Ok(p) ==> p.episodes@.len() <= ITEMS_PER_PAGE && p.has_next_page
                == page_has_next(page),
    ;

    /// The playable sources of one episode of a series.
    fn get_series_videos(series_id: String, episode_id: String) -> (r: Result<
        Vec<Video>,
        ProviderError,
    >)
        ensures
            r matches Ok(v) ==> v@.len() > 0,
    ;
}

} // verus!
