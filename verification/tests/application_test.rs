use markemptydirs::application::{create_appinfo, decimal_text, VersionInfo};

#[test]
fn application_test_new() {
    assert_eq!("1976.10.3", VersionInfo::new(1976, 10, 3).to_text());
}

#[test]
fn new_with_suffix() {
    assert_eq!(
        "1976.10.3-stable",
        VersionInfo::new_with_suffix(1976, 10, 3, "stable").to_text()
    );
}

#[test]
fn version_text_skips_zero_bugfix() {
    assert_eq!("2.5", VersionInfo::new(2, 5, 0).to_text());
    assert_eq!("2.5-rc1", VersionInfo::new_with_suffix(2, 5, 0, "rc1").to_text());
}

#[test]
fn decimal_text_renders_exact_digits() {
    assert_eq!("0", decimal_text(0));
    assert_eq!("7", decimal_text(7));
    assert_eq!("10", decimal_text(10));
    assert_eq!("65535", decimal_text(65535));
    assert_eq!("18446744073709551615", decimal_text(u64::MAX));
}

#[test]
fn appinfo_identity() {
    let info = create_appinfo();
    assert_eq!(2018, info.copyright_year);
    assert_eq!("markemptydirs", info.name);
    assert_eq!("0.1-beta1", info.version_info.to_text());
}
