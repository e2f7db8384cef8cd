use pyroxide::string::MojoStr;

#[test]
fn new_from_str() {
    let s = MojoStr::new("hello");
    assert_eq!(s.len(), 5);
    assert!(!s.is_empty());
    assert_eq!(s.len_isize(), 5);
    assert_ne!(s.as_raw(), 0);
}

#[test]
fn empty_str() {
    let s = MojoStr::new("");
    assert_eq!(s.len(), 0);
    assert!(s.is_empty());
}

#[test]
fn from_trait() {
    let s: MojoStr<'_> = "world".into();
    assert_eq!(s.len(), 5);
}

#[test]
fn as_raw_points_to_data() {
    let text = "test";
    let s = MojoStr::new(text);
    assert_eq!(s.as_raw(), text.as_ptr() as isize);
}

#[test]
fn roundtrip_as_str() {
    let text = "hello world";
    let s = MojoStr::new(text);
    let recovered = s.as_str();
    assert_eq!(recovered, text);
}

#[test]
fn len_counts_utf8_bytes() {
    let s = MojoStr::new("héllo");
    assert_eq!(s.len(), 6);
    assert_eq!(s.len_isize(), 6);
    assert!(!s.is_empty());
}
