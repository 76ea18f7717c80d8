use psf::{Action, Config, ExposureError, GmtOpticalModel, PSFs, WindLoads, FRAME_LEN};

fn steps(actions: &[Action<f64>]) -> Vec<String> {
    actions
        .iter()
        .map(|a| match a {
            Action::UpdateRigidBodyMotions(m1, m2) => format!("rbm {} {} {}", m1.len(), m2.len(), m1[0]),
            Action::PropagateToPupil => "pupil".to_string(),
            Action::AddWavefront(opd) => format!("opd {}", opd.len()),
            Action::PropagateToDetector => "detector".to_string(),
        })
        .collect()
}

fn model() -> GmtOpticalModel<f64> {
    GmtOpticalModel::new(&Config::new(10_000, 4_000, 500))
}

#[test]
fn unperturbed_step_traces_to_the_detector() {
    let mut gmt = model();
    assert_eq!(steps(&gmt.ray_trace(None)), vec!["pupil", "detector"]);
    // a wavefront sample is ignored when no source is attached
    assert_eq!(steps(&gmt.ray_trace(Some(vec![1.0; 4]))), vec!["pupil", "detector"]);
}

#[test]
fn perturbations_are_applied_in_order() {
    let columns: Vec<Vec<f64>> = (0..5201).map(|j| vec![j as f64; 84]).collect();
    let mut gmt = model().domeseeing().windloads(WindLoads::new(columns).unwrap());
    assert_eq!(
        steps(&gmt.ray_trace(Some(vec![0.5; 9]))),
        vec!["rbm 42 42 5000", "pupil", "opd 9", "detector"]
    );
    assert_eq!(
        steps(&gmt.ray_trace(None)),
        vec!["rbm 42 42 5200", "pupil", "detector"]
    );
    assert_eq!(steps(&gmt.ray_trace(Some(vec![0.5; 9]))), vec!["pupil", "opd 9", "detector"]);
}

#[test]
fn one_sample_series_stops_moving_the_mirrors() {
    let columns: Vec<Vec<f64>> = (0..5001).map(|j| vec![j as f64; 84]).collect();
    let mut gmt = model().windloads(WindLoads::new(columns).unwrap());
    let first = gmt.ray_trace(None);
    assert_eq!(steps(&first), vec!["rbm 42 42 5000", "pupil", "detector"]);
    let second = gmt.ray_trace(None);
    assert_eq!(steps(&second), vec!["pupil", "detector"]);
}

#[test]
fn exposure_accumulates_until_read() {
    let mut gmt = model();
    let image: Vec<u32> = (0..FRAME_LEN).map(|p| (p % 3) as u32).collect();
    assert_eq!(gmt.expose(&image), Ok(()));
    assert_eq!(gmt.expose(&image), Ok(()));
    let psf = gmt.read_detector();
    assert_eq!(psf.frame[2], 4);
    assert_eq!(psf.frame[4], 2);
    assert_eq!(psf.pssn, None);
    assert_eq!(psf.opd, None);
}

#[test]
fn second_read_is_dark() {
    let mut gmt = model();
    gmt.ray_trace(None);
    assert_eq!(gmt.expose(&vec![9; FRAME_LEN]), Ok(()));
    let first = gmt.read_detector();
    assert!(first.frame.iter().all(|&v| v == 9));
    let second = gmt.read_detector();
    assert_eq!(second.frame.len(), first.frame.len());
    assert_eq!(second.frame.len(), FRAME_LEN);
    assert!(second.frame.iter().all(|&v| v == 0));
}

#[test]
fn exposure_errors_leave_the_detector_unchanged() {
    let mut gmt = model();
    assert_eq!(gmt.expose(&vec![1; 10]), Err(ExposureError::FrameSize));
    assert_eq!(gmt.expose(&vec![u32::MAX - 1; FRAME_LEN]), Ok(()));
    let mut image = vec![0; FRAME_LEN];
    image[5] = 2;
    assert_eq!(gmt.expose(&image), Err(ExposureError::Saturated));
    let psf = gmt.read_detector();
    assert_eq!(psf.frame[5], u32::MAX - 1);
}

#[test]
fn configuration_is_shared_with_frames() {
    let mut gmt = model();
    let c = gmt.get_config().turbulence_effects("Dome Seeing".to_string());
    gmt.set_config(c.clone());
    let psf = gmt.read_detector();
    assert_eq!(psf.config.turbulence_effects.as_deref(), Some("Dome Seeing"));
    assert!(std::rc::Rc::ptr_eq(&gmt.get_config(), &c));
}

#[test]
fn single_unperturbed_frame_end_to_end() {
    let mut gmt = model();
    let actions = gmt.ray_trace(None);
    assert_eq!(steps(&actions), vec!["pupil", "detector"]);
    // the image the engine formed for this step
    let image: Vec<u32> = (0..FRAME_LEN).map(|p| (p % 1000) as u32).collect();
    gmt.expose(&image).unwrap();
    let psf = gmt.read_detector().pssn_value(1_000_000);
    let mut psfs = PSFs::from(&gmt);
    psfs.push(psf);
    assert_eq!(psfs.len(), 1);
    assert_eq!(psfs.peak(), 999);
    let rendered = psfs.render_all();
    assert_eq!(rendered.len(), 1);
    assert_eq!(rendered[0].len(), FRAME_LEN);
    // the divisor is the frame's own largest intensity
    assert_eq!(rendered[0][999], 255);
    assert_eq!(rendered[0][0], 0);
    assert_eq!(rendered[0][500], 127);
}
