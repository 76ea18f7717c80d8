use psf::{get_enclosure_config, AzimuthAngle, ElevationAngle, WindSpeed, ZenithAngle};

#[test]
fn zenith_angles_in_order() {
    assert_eq!(
        ZenithAngle::all(),
        vec![ZenithAngle::Zero, ZenithAngle::Thirty, ZenithAngle::Sixty]
    );
    let degrees: Vec<u32> = ZenithAngle::all().iter().map(|z| z.as_u32()).collect();
    assert_eq!(degrees, vec![0, 30, 60]);
    assert_eq!(ZenithAngle::Thirty.as_str(), "30°");
    assert_eq!(u32::from(ZenithAngle::Sixty), 60);
}

#[test]
fn elevation_angles_map_to_zenith() {
    assert_eq!(
        ElevationAngle::all(),
        vec![ElevationAngle::Ninety, ElevationAngle::Sixty, ElevationAngle::Thirty]
    );
    assert_eq!(ZenithAngle::from(ElevationAngle::Ninety), ZenithAngle::Zero);
    assert_eq!(ZenithAngle::from(ElevationAngle::Sixty), ZenithAngle::Thirty);
    assert_eq!(ZenithAngle::from(ElevationAngle::Thirty), ZenithAngle::Sixty);
    assert_eq!(ElevationAngle::Ninety.as_u32(), 90);
    assert_eq!(ElevationAngle::Sixty.as_str(), "60°");
    assert_eq!(u32::from(ElevationAngle::Thirty), 30);
}

#[test]
fn azimuth_angles() {
    let degrees: Vec<u32> = AzimuthAngle::all().iter().map(|a| a.as_u32()).collect();
    assert_eq!(degrees, vec![0, 45, 90, 135, 180]);
    assert_eq!(AzimuthAngle::OneThirtyFive.as_str(), "135°");
    assert_eq!(u32::from(AzimuthAngle::OneEighty), 180);
}

#[test]
fn wind_speeds() {
    let speeds: Vec<u32> = WindSpeed::all().iter().map(|w| w.as_u32()).collect();
    assert_eq!(speeds, vec![2, 7, 12, 17]);
    assert_eq!(WindSpeed::Twelve.as_str(), "12 m/s");
    assert_eq!(WindSpeed::Two.as_str(), "2 m/s");
    assert_eq!(u32::from(WindSpeed::Seventeen), 17);
}

#[test]
fn enclosure_configuration() {
    assert_eq!(get_enclosure_config(2, ZenithAngle::Sixty), "os");
    assert_eq!(get_enclosure_config(7, ZenithAngle::Zero), "os");
    assert_eq!(get_enclosure_config(12, ZenithAngle::Thirty), "cd");
    assert_eq!(get_enclosure_config(12, ZenithAngle::Zero), "cd");
    assert_eq!(get_enclosure_config(17, ZenithAngle::Sixty), "cs");
    assert_eq!(get_enclosure_config(8, ElevationAngle::Thirty.into()), "cs");
}
