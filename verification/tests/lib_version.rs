//! The library's version string.

use regex::Regex;

#[test]
fn test_version() {
    let re = Regex::new(r"\d+\.\d+\.\d+").unwrap();
    let mat_exists = re.find(&zustdpipe::version()).is_some();
    assert_eq!(
        mat_exists, true,
        "Version in correct format exists. Actual: {}. Expected {}.",
        mat_exists, true
    );
}
