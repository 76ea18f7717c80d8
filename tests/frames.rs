use psf::psfs::normalize_by;
use psf::{Config, PSFs, DETECTOR_SIZE, FRAME_LEN, PSF};

fn config() -> std::rc::Rc<Config> {
    Config::new(10_000, 4_000, 500)
}

/// A frame whose pixel `p` holds `f(p)`.
fn frame(f: impl Fn(usize) -> u32) -> Vec<u32> {
    (0..FRAME_LEN).map(f).collect()
}

/// Index of a pixel far from both circles.
const CORNER: usize = 0;

#[test]
fn frame_len_is_the_detector_square() {
    assert_eq!(DETECTOR_SIZE, 760);
    assert_eq!(FRAME_LEN, 760 * 760);
}

#[test]
fn builders_attach_metadata() {
    let c = config();
    let psf = PSF::new(&c, vec![1, 2, 3]).opd(vec![-1, 0, 1]).pssn_value(950_000);
    assert_eq!(psf.frame, vec![1, 2, 3]);
    assert_eq!(psf.opd, Some(vec![-1, 0, 1]));
    assert_eq!(psf.pssn, Some(950_000));
    assert_eq!(psf.peak(), 3);
}

#[test]
fn configuration_builders_keep_other_fields() {
    let c = config();
    let d = c.cfd_case("zen30az000_OS7".to_string());
    let e = d.turbulence_effects("Dome Seeing".to_string());
    assert_eq!(e.seeing_radius, 10_000);
    assert_eq!(e.segment_diff_lim_radius, 4_000);
    assert_eq!(e.wavelength, 500);
    assert_eq!(e.cfd_case.as_deref(), Some("zen30az000_OS7"));
    assert_eq!(e.turbulence_effects.as_deref(), Some("Dome Seeing"));
    assert_eq!(c.cfd_case, None);
    assert_eq!(d.turbulence_effects, None);
}

#[test]
fn byte_normalization() {
    assert_eq!(normalize_by(&vec![0, 50, 100, 200], 200), vec![0, 63, 127, 255]);
    assert_eq!(normalize_by(&vec![0, 0], 0), vec![0, 0]);
    assert_eq!(normalize_by(&vec![u32::MAX, u32::MAX - 1], u32::MAX), vec![255, 254]);
}

#[test]
fn frames_share_the_global_divisor() {
    let c = config();
    let mut psfs = PSFs::new(&c);
    psfs.push(PSF::new(&c, frame(|p| if p == CORNER { 100 } else { 0 })));
    psfs.push(PSF::new(&c, frame(|p| if p == CORNER { 400 } else { 1 })));
    assert_eq!(psfs.len(), 2);
    assert_eq!(psfs.peak(), 400);
    let images = psfs.render_all();
    assert_eq!(images.len(), 2);
    assert_eq!(images[0].len(), FRAME_LEN);
    // 100 * 255 / 400, not 255 as a per-frame divisor would give
    assert_eq!(images[0][CORNER], 63);
    assert_eq!(images[1][CORNER], 255);
}

#[test]
fn common_scale_keeps_relative_brightness() {
    let c = config();
    let render = |scale: u32| {
        let mut psfs = PSFs::new(&c);
        psfs.push(PSF::new(&c, frame(|p| if p == CORNER { 30 * scale } else { scale })));
        psfs.push(PSF::new(&c, frame(|p| if p == CORNER { 70 * scale } else { 0 })));
        psfs.render_all()
    };
    let once = render(1);
    assert_eq!(once, render(3));
    assert_eq!(once[0][CORNER], 109);
    // scaling one frame alone changes how the other renders
    let mut psfs = PSFs::new(&c);
    psfs.push(PSF::new(&c, frame(|p| if p == CORNER { 30 } else { 1 })));
    psfs.push(PSF::new(&c, frame(|p| if p == CORNER { 210 } else { 0 })));
    assert_ne!(psfs.render_all()[0][CORNER], once[0][CORNER]);
}

#[test]
fn circles_are_drawn_on_rendered_frames() {
    let c = config();
    let psf = PSF::new(&c, frame(|_| 0));
    let image = psf.render();
    // pixel (389, 380) is 9.5 px right of and 0.5 px below the center
    assert_eq!(image[380 * DETECTOR_SIZE + 389], 255);
    // pixel (390, 380) is more than half a pixel outside the 10 px circle
    assert_eq!(image[380 * DETECTOR_SIZE + 390], 0);
    // the 4 px circle: pixel (383, 380) is 3.5 px right of the center
    assert_eq!(image[380 * DETECTOR_SIZE + 383], 255);
    assert_eq!(image[380 * DETECTOR_SIZE + 385], 0);
    assert_eq!(image[CORNER], 0);
}

#[test]
fn sum_adds_every_frame() {
    let c = config();
    let mut psfs = PSFs::new(&c);
    psfs.push(PSF::new(&c, frame(|p| (p % 7) as u32)));
    psfs.push(PSF::new(&c, frame(|p| (p % 5) as u32 * 10)));
    psfs.push(PSF::new(&c, frame(|_| 1)));
    let sum = psfs.sum().unwrap();
    assert_eq!(sum.frame.len(), FRAME_LEN);
    for p in [0usize, 1, 6, 34, 577_599] {
        assert_eq!(sum.frame[p], (p % 7) as u32 + (p % 5) as u32 * 10 + 1);
    }
    assert_eq!(sum.pssn, None);
    assert_eq!(sum.opd, None);
}

#[test]
fn sum_of_no_frame_is_dark() {
    let psfs = PSFs::new(&config());
    let sum = psfs.sum().unwrap();
    assert_eq!(sum.frame.len(), FRAME_LEN);
    assert!(sum.frame.iter().all(|&v| v == 0));
}

#[test]
fn sum_that_overflows_is_refused() {
    let c = config();
    let mut psfs = PSFs::new(&c);
    psfs.push(PSF::new(&c, frame(|p| if p == 17 { u32::MAX } else { 0 })));
    psfs.push(PSF::new(&c, frame(|p| if p == 17 { 1 } else { 0 })));
    assert!(psfs.sum().is_none());
}

#[test]
fn long_exposure_uses_its_own_divisor() {
    let c = config();
    let mut psfs = PSFs::new(&c);
    psfs.push(PSF::new(&c, frame(|p| if p == CORNER { 40 } else { 0 })));
    psfs.push(PSF::new(&c, frame(|p| if p == CORNER + 1 { 40 } else { 0 })));
    let sum = psfs.sum().unwrap();
    assert_eq!(sum.peak(), 40);
    let image = sum.render();
    assert_eq!(image[CORNER], 255);
    assert_eq!(image[CORNER + 1], 255);
}

#[test]
fn wavefront_map_rendering() {
    let c = config();
    let psf = PSF::new(&c, vec![]).opd(vec![-100, 0, 100, 50]);
    assert_eq!(psf.render_opd(), Some(vec![0, 127, 255, 191]));
    let flat = PSF::new(&c, vec![]).opd(vec![7, 7]);
    assert_eq!(flat.render_opd(), Some(vec![0, 0]));
    assert_eq!(PSF::new(&c, vec![]).render_opd(), None);
}

#[test]
fn collection_renders_wavefront_maps_in_order() {
    let c = config();
    let mut psfs = PSFs::new(&c);
    psfs.push(PSF::new(&c, frame(|_| 0)).opd(vec![0, 10]));
    psfs.push(PSF::new(&c, frame(|_| 0)));
    psfs.push(PSF::new(&c, frame(|_| 0)).opd(vec![-4, 0, 4]));
    let maps = psfs.render_all_opd();
    assert_eq!(maps, vec![Some(vec![0, 255]), None, Some(vec![0, 127, 255])]);
}
