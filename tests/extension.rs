use testing_extension::provider::Extension;
use testing_extension::extension::{
    TestingExtension, IMAGE_AUTHORITY, POSTER_PATH, SERIES_SYNOPSIS, SERIES_TITLE,
};
use testing_extension::model::{ProviderError, Scheme};

#[test]
fn search_third_page() {
    let page = TestingExtension::search("spy".to_string(), Some(3), vec![]).unwrap();
    assert_eq!(page.series.len(), 12);
    for (i, s) in page.series.iter().enumerate() {
        assert_eq!(s.id, (24 + i + 1).to_string());
    }
    assert_eq!(page.series[0].id, "25");
    assert_eq!(page.series[11].id, "36");
    assert!(page.has_next_page);
}

#[test]
fn search_last_page_has_no_next() {
    let page = TestingExtension::search("spy".to_string(), Some(10), vec![]).unwrap();
    assert!(!page.has_next_page);
    assert_eq!(page.series[0].id, "109");
    assert_eq!(page.series[11].id, "120");
}

#[test]
fn search_without_page_is_first_page() {
    let page = TestingExtension::search(String::new(), None, vec![]).unwrap();
    let ids: Vec<String> = page.series.iter().map(|s| s.id.clone()).collect();
    let expected: Vec<String> = (1..=12).map(|i: usize| i.to_string()).collect();
    assert_eq!(ids, expected);
    assert!(page.has_next_page);
}

#[test]
fn search_pages_do_not_overlap() {
    let a = TestingExtension::search(String::new(), Some(4), vec![]).unwrap();
    let b = TestingExtension::search(String::new(), Some(5), vec![]).unwrap();
    let last: usize = a.series[11].id.parse().unwrap();
    let first: usize = b.series[0].id.parse().unwrap();
    assert_eq!(last + 1, first);
}

#[test]
fn search_entries_share_the_template() {
    let page = TestingExtension::search(String::new(), Some(2), vec![]).unwrap();
    for s in &page.series {
        assert_eq!(s.title, SERIES_TITLE);
        assert_eq!(s.title, "SPY x FAMILY");
        assert_eq!(s.type_.as_deref(), Some("Series"));
        assert_eq!(s.synopsis.as_deref(), Some(SERIES_SYNOPSIS));
        let poster = s.poster_resource.as_ref().unwrap();
        assert_eq!(poster.scheme(), Scheme::Https);
        assert_eq!(poster.authority(), IMAGE_AUTHORITY);
        assert_eq!(poster.path_with_query(), POSTER_PATH);
    }
}

#[test]
fn episodes_first_page() {
    let page = TestingExtension::get_series_episodes("spy-x-family".to_string(), None).unwrap();
    assert_eq!(page.episodes.len(), 12);
    for (i, e) in page.episodes.iter().enumerate() {
        assert_eq!(e.number as usize, i + 1);
        assert_eq!(e.id, (i + 1).to_string());
        assert_eq!(e.title.as_deref(), Some("OPERATION STRIX"));
        let thumb = e.thumbnail_resource.as_ref().unwrap();
        assert_eq!(thumb.scheme(), Scheme::Https);
        assert_eq!(thumb.authority(), "m.media-amazon.com");
    }
    assert!(page.has_next_page);
}

#[test]
fn episodes_later_page_keeps_numbers_and_shifts_ids() {
    let page = TestingExtension::get_series_episodes("x".to_string(), Some(2)).unwrap();
    assert_eq!(page.episodes[0].id, "13");
    assert_eq!(page.episodes[11].id, "24");
    assert_eq!(page.episodes[0].number, 1);
    assert_eq!(page.episodes[11].number, 12);
    let last = TestingExtension::get_series_episodes("x".to_string(), Some(12)).unwrap();
    assert!(!last.has_next_page);
}

#[test]
fn filters_are_not_implemented() {
    let r = TestingExtension::filters();
    assert_eq!(r.unwrap_err(), ProviderError::NotImplemented);
}

#[test]
fn series_info_is_the_template() {
    let s = TestingExtension::get_series_info("anything".to_string()).unwrap();
    assert_eq!(s.id, "spy-x-family");
    assert_eq!(s.title, "SPY x FAMILY");
    assert!(s.synopsis.unwrap().contains("Twilight"));
}

#[test]
fn videos_are_https_with_authority() {
    let v = TestingExtension::get_series_videos("spy-x-family".to_string(), "1".to_string()).unwrap();
    assert!(!v.is_empty());
    for video in &v {
        assert_eq!(video.http_resource.scheme(), Scheme::Https);
        assert!(!video.http_resource.authority().is_empty());
    }
    assert_eq!(v[0].http_resource.authority(), "commondatastorage.googleapis.com");
    assert_eq!(v[0].http_resource.path_with_query(), "/gtv-videos-bucket/sample/BigBuckBunny.mp4");
    assert_eq!(v[0].server, "Google");
    assert_eq!(v[0].resolution, (0, 0));
}
