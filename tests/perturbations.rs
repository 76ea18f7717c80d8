use psf::{turbulence_effects, PerturbationError, WindLoadsOptions};

#[test]
fn dome_seeing_alone() {
    assert_eq!(turbulence_effects(true, None).unwrap(), "Dome Seeing");
}

#[test]
fn dome_seeing_and_wind_loads() {
    assert_eq!(
        turbulence_effects(true, Some(WindLoadsOptions::Fsm)).unwrap(),
        "Dome Seeing + (Wind Loads - FSM)"
    );
    assert_eq!(
        turbulence_effects(true, Some(WindLoadsOptions::OpenLoop)).unwrap(),
        "Dome Seeing + WindLoads"
    );
}

#[test]
fn wind_loads_alone() {
    assert_eq!(
        turbulence_effects(false, Some(WindLoadsOptions::Asm2)).unwrap(),
        "(Wind Loads - ASM2)"
    );
    assert_eq!(
        turbulence_effects(false, Some(WindLoadsOptions::Asm)).unwrap(),
        "(Wind Loads - ASM)"
    );
}

#[test]
fn no_perturbation_is_refused() {
    assert_eq!(turbulence_effects(false, None), Err(PerturbationError::NoPerturbation));
}

#[test]
fn series_file_names() {
    assert_eq!(WindLoadsOptions::OpenLoop.file_name(), "m1_m2_rbms.parquet");
    assert_eq!(WindLoadsOptions::Fsm.file_name(), "m1_m2_rbms.FSM.parquet");
    assert_eq!(WindLoadsOptions::Asm.file_name(), "m1_m2_rbms.ASM.parquet");
    assert_eq!(WindLoadsOptions::Asm2.file_name(), "m1_m2_rbms.ASM.2.parquet");
    assert_eq!(WindLoadsOptions::Fsm.tag(), "(Wind Loads - FSM)");
}
