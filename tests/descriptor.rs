use testing_extension::model::{DescriptorError, ResourceDescriptor, Scheme};

#[test]
fn valid_descriptor_keeps_its_parts() {
    let d = ResourceDescriptor::new(Scheme::Https, "example.org", "/a/b?c=d").unwrap();
    assert_eq!(d.scheme(), Scheme::Https);
    assert_eq!(d.authority(), "example.org");
    assert_eq!(d.path_with_query(), "/a/b?c=d");
}

#[test]
fn plain_http_is_refused() {
    let r = ResourceDescriptor::new(Scheme::Http, "example.org", "/");
    assert_eq!(r.unwrap_err(), DescriptorError::InsecureScheme);
}

#[test]
fn empty_authority_is_refused() {
    let r = ResourceDescriptor::new(Scheme::Https, "", "/x");
    assert_eq!(r.unwrap_err(), DescriptorError::EmptyAuthority);
}

#[test]
fn empty_or_relative_path_is_refused() {
    let r = ResourceDescriptor::new(Scheme::Https, "example.org", "");
    assert_eq!(r.unwrap_err(), DescriptorError::InvalidPath);
    let r = ResourceDescriptor::new(Scheme::Https, "example.org", "x/y");
    assert_eq!(r.unwrap_err(), DescriptorError::InvalidPath);
}

#[test]
fn scheme_is_checked_before_authority_and_path() {
    let r = ResourceDescriptor::new(Scheme::Http, "", "");
    assert_eq!(r.unwrap_err(), DescriptorError::InsecureScheme);
    let r = ResourceDescriptor::new(Scheme::Https, "", "");
    assert_eq!(r.unwrap_err(), DescriptorError::EmptyAuthority);
}
