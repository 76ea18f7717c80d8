use psf::config::{decimal, millionths};
use psf::Config;

#[test]
fn decimal_formatting() {
    assert_eq!(decimal(0), "0");
    assert_eq!(decimal(7), "7");
    assert_eq!(decimal(500), "500");
    assert_eq!(decimal(1_234_567_890), "1234567890");
    assert_eq!(decimal(u64::MAX), u64::MAX.to_string());
}

#[test]
fn millionths_formatting() {
    assert_eq!(millionths(950_000), "0.950000");
    assert_eq!(millionths(1_000_000), "1.000000");
    assert_eq!(millionths(0), "0.000000");
    assert_eq!(millionths(42), "0.000042");
    assert_eq!(millionths(-1_234_567), "-1.234567");
    assert_eq!(millionths(i64::MIN), "-9223372036854.775808");
}

#[test]
fn caption_without_metadata() {
    let c = Config::new(1, 2, 500);
    assert_eq!(c.caption(None), vec!["wavelength: 500nm".to_string()]);
}

#[test]
fn caption_with_every_line() {
    let c = Config::new(1, 2, 551)
        .cfd_case("zen30az000_OS7".to_string())
        .turbulence_effects("Dome Seeing".to_string());
    assert_eq!(
        c.caption(Some(987_654)),
        vec![
            "wavelength: 551nm".to_string(),
            "CFD case: zen30az000_OS7".to_string(),
            "effects: Dome Seeing".to_string(),
            "PSSn: 0.987654".to_string(),
        ]
    );
}
