use airs_asr::version;

#[test]
fn version_returns_expected() {
    assert_eq!(version(), "0.1.0");
}
