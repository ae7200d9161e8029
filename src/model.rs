//! The records a provider hands to its host: catalog entries, pages of
//! them, playable sources, filter shapes, outbound resource descriptors and
//! the provider's error kinds.
use vstd::prelude::*;

verus! {

/// URI scheme of an outbound resource descriptor.
#[derive(Clone, Copy, Debug, PartialEq, Eq, Structural)]
pub enum Scheme {
    Http,
    Https,
}

/// Why a resource descriptor could not be built.
#[derive(Clone, Copy, Debug, PartialEq, Eq, Structural)]
pub enum DescriptorError {
    /// Only HTTPS resources may be handed to the host.
    InsecureScheme,
    /// The authority (host) is empty.
    EmptyAuthority,
    /// The path is empty or does not start with `/`.
    InvalidPath,
}

/// What a resource descriptor holds, as plain values.
pub struct ResourceView {
    pub scheme: Scheme,
    pub authority: Seq<char>,
    pub path_with_query: Seq<char>,
}

/// An HTTPS scheme, a non-empty authority, and a path that starts with `/`.
pub open spec fn descriptor_valid(scheme: Scheme, authority: Seq<char>, path_with_query: Seq<char>) -> bool {
    &&& scheme == Scheme::Https
    &&& authority.len() > 0
    &&& path_with_query.len() > 0
    &&& path_with_query[0] == '/'
}

/// The error that building a descriptor from these parts reports, if any.
pub open spec fn descriptor_error(scheme: Scheme, authority: Seq<char>, path_with_query: Seq<char>) -> Option<DescriptorError> {
    if scheme != Scheme::Https {
        Some(DescriptorError::InsecureScheme)
    } else if authority.len() == 0 {
        Some(DescriptorError::EmptyAuthority)
    } else if path_with_query.len() == 0 || path_with_query[0] != '/' {
        Some(DescriptorError::InvalidPath)
    } else {
        None
    }
}

/// An outbound-request descriptor that the host will later dereference.
/// The provider only describes the resource; it never fetches it.
#[derive(Debug)]
pub struct ResourceDescriptor {
    scheme: Scheme,
    authority: String,
    path_with_query: String,
}

impl View for ResourceDescriptor {
    type V = ResourceView;

    closed spec fn view(&self) -> ResourceView {
        ResourceView {
            scheme: self.scheme,
            authority: self.authority@,
            path_with_query: self.path_with_query@,
        }
    }
}

impl ResourceDescriptor {
    /// Every descriptor in existence passed validation.
    #[verifier::type_invariant]
    closed spec fn inv(&self) -> bool {
        descriptor_valid(self.scheme, self.authority@, self.path_with_query@)
    }

    /// Validates all three parts at once and builds the descriptor.
    pub fn new(scheme: Scheme, authority: &str, path_with_query: &str) -> (r: Result<
        ResourceDescriptor,
        DescriptorError,
    >)
        ensures
            match descriptor_error(scheme, authority@, path_with_query@) {
                Some(e) => r == Err::<ResourceDescriptor, DescriptorError>(e),
                None => r matches Ok(d) && d@ == (ResourceView {
                    scheme,
                    authority: authority@,
                    path_with_query: path_with_query@,
                }),
            },
    {
        if scheme != Scheme::Https {
            return Err(DescriptorError::InsecureScheme);
        }
        if authority.unicode_len() == 0 {
            return Err(DescriptorError::EmptyAuthority);
        }
        if path_with_query.unicode_len() == 0 || path_with_query.get_char(0) != '/' {
            return Err(DescriptorError::InvalidPath);
        }
        Ok(Self::from_valid_parts(scheme, authority, path_with_query))
    }

    /// Builds a descriptor from parts already known to be valid.
    pub fn from_valid_parts(scheme: Scheme, authority: &str, path_with_query: &str) -> (r:
        ResourceDescriptor)
        requires
            descriptor_valid(scheme, authority@, path_with_query@),
        ensures
            r@ == (ResourceView {
                scheme,
                authority: authority@,
                path_with_query: path_with_query@,
            }),
    {
        ResourceDescriptor {
            scheme,
            authority: authority.to_owned(),
            path_with_query: path_with_query.to_owned(),
        }
    }

    pub fn scheme(&self) -> (r: Scheme)
        ensures
            r == self@.scheme,
    {
        self.scheme
    }

    pub fn authority(&self) -> (r: &str)
        ensures
            r@ == self@.authority,
    {
        self.authority.as_str()
    }

    pub fn path_with_query(&self) -> (r: &str)
        ensures
            r@ == self@.path_with_query,
    {
        self.path_with_query.as_str()
    }
}

/// The text an optional string holds.
pub open spec fn opt_text(o: Option<String>) -> Option<Seq<char>> {
    match o {
        Some(s) => Some(s@),
        None => None,
    }
}

/// What an optional descriptor holds.
pub open spec fn opt_resource(o: Option<ResourceDescriptor>) -> Option<ResourceView> {
    match o {
        Some(d) => Some(d@),
        None => None,
    }
}

/// A catalog entry.
#[derive(Debug)]
pub struct Series {
    /// Stable identifier, unique within the provider.
    pub id: String,
    pub title: String,
    pub poster_resource: Option<ResourceDescriptor>,
    pub synopsis: Option<String>,
    /// Classification, such as a series or a single feature.
    pub type_: Option<String>,
}

pub struct SeriesView {
    pub id: Seq<char>,
    pub title: Seq<char>,
    pub poster_resource: Option<ResourceView>,
    pub synopsis: Option<Seq<char>>,
    pub type_: Option<Seq<char>>,
}

impl View for Series {
    type V = SeriesView;

    open spec fn view(&self) -> SeriesView {
        SeriesView {
            id: self.id@,
            title: self.title@,
            poster_resource: opt_resource(self.poster_resource),
            synopsis: opt_text(self.synopsis),
            type_: opt_text(self.type_),
        }
    }
}

/// A unit within a series.
#[derive(Debug)]
pub struct Episode {
    /// Unique within the parent series.
    pub id: String,
    /// 1-based position in playback order, independent of `id`.
    pub number: u16,
    pub title: Option<String>,
    pub thumbnail_resource: Option<ResourceDescriptor>,
    pub description: Option<String>,
}

pub struct EpisodeView {
    pub id: Seq<char>,
    pub number: u16,
    pub title: Option<Seq<char>>,
    pub thumbnail_resource: Option<ResourceView>,
    pub description: Option<Seq<char>>,
}

impl View for Episode {
    type V = EpisodeView;

    open spec fn view(&self) -> EpisodeView {
        EpisodeView {
            id: self.id@,
            number: self.number,
            title: opt_text(self.title),
            thumbnail_resource: opt_resource(self.thumbnail_resource),
            description: opt_text(self.description),
        }
    }
}

/// One playable source of an episode; (0, 0) as resolution means unknown.
#[derive(Debug)]
pub struct Video {
    pub http_resource: ResourceDescriptor,
    /// Label of the hosting provider.
    pub server: String,
    /// Width and height.
    pub resolution: (u16, u16),
}

pub struct VideoView {
    pub http_resource: ResourceView,
    pub server: Seq<char>,
    pub resolution: (u16, u16),
}

impl View for Video {
    type V = VideoView;

    open spec fn view(&self) -> VideoView {
        VideoView {
            http_resource: self.http_resource@,
            server: self.server@,
            resolution: self.resolution,
        }
    }
}

/// A batch of series and whether a further page is announced.
#[derive(Debug)]
pub struct SeriesPage {
    pub series: Vec<Series>,
    pub has_next_page: bool,
}

/// A batch of episodes and whether a further page is announced.
#[derive(Debug)]
pub struct EpisodesPage {
    pub episodes: Vec<Episode>,
    pub has_next_page: bool,
}

/// One selectable filter, such as a single genre.
#[derive(Debug, PartialEq, Eq)]
pub struct Filter {
    pub id: String,
    pub display_name: String,
}

/// A group of selectable filters, such as genre or year.
#[derive(Debug, PartialEq, Eq)]
pub struct FilterCategory {
    pub id: String,
    pub display_name: String,
    pub filters: Vec<Filter>,
}

/// A filter selection passed back into a search.
#[derive(Debug, PartialEq, Eq)]
pub struct SearchFilter {
    pub id: String,
    pub values: Vec<String>,
}

/// How a catalog operation fails.
#[derive(Debug, PartialEq, Eq)]
pub enum ProviderError {
    /// The provider deliberately lacks this capability.
    NotImplemented,
    /// An identifier does not resolve.
    NotFound,
    /// An unexpected failure, with optional diagnostic text.
    InternalError(Option<String>),
}

} // verus!
