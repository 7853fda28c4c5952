use fpga_runner_jit::errors::CiError;
use fpga_runner_jit::stage::CaliptraCiInfo;
use fpga_runner_jit::stage::Stage;
use fpga_runner_jit::target::FpgaTarget;
use fpga_runner_jit::target::RunnerLabels;

#[test]
fn carl_credentials() {
    let info = CaliptraCiInfo::for_stage(Stage::Carl, "/tmp/key.pem".to_string()).unwrap();
    assert_eq!(info.github_app_id, 1160975);
    assert_eq!(info.github_installation_id, 61798278);
    assert_eq!(info.github_org_name, "clundin25-testorg");
    assert_eq!(info.key_path, "/tmp/key.pem");
}

#[test]
fn prod_credentials() {
    let info = CaliptraCiInfo::for_stage(Stage::Prod, "key.pem".to_string()).unwrap();
    assert_eq!(info.github_app_id, 379559);
    assert_eq!(info.github_installation_id, 40993215);
    assert_eq!(info.github_org_name, "chipsalliance");
    assert_eq!(info.key_path, "key.pem");
}

#[test]
fn staging_has_no_mapping_and_fails_hard() {
    let r = CaliptraCiInfo::for_stage(Stage::Staging, "key.pem".to_string());
    assert!(matches!(r, Err(CiError::UnimplementedStage)));
}

#[test]
fn implemented_stages_share_no_credentials() {
    let carl = CaliptraCiInfo::for_stage(Stage::Carl, "k".to_string()).unwrap();
    let prod = CaliptraCiInfo::for_stage(Stage::Prod, "k".to_string()).unwrap();
    assert_ne!(carl.github_org_name, prod.github_org_name);
    assert_ne!(
        (carl.github_app_id, carl.github_installation_id),
        (prod.github_app_id, prod.github_installation_id)
    );
}

#[test]
fn zcu104_labels() {
    let labels = RunnerLabels::new(FpgaTarget::Zcu104, false).into_vec();
    assert_eq!(labels, vec!["caliptra-fpga".to_string()]);
}

#[test]
fn zcu104_nightly_labels_carry_base_and_nightly() {
    let labels = RunnerLabels::new(FpgaTarget::Zcu104Nightly, false).into_vec();
    assert_eq!(
        labels,
        vec!["caliptra-fpga".to_string(), "caliptra-fpga-nightly".to_string()]
    );
}

#[test]
fn vck190_labels() {
    let labels = RunnerLabels::new(FpgaTarget::Vck190, false).into_vec();
    assert_eq!(labels, vec!["vck190".to_string()]);
}

#[test]
fn dry_run_suffixes_only_the_staging_capable_target() {
    let zcu = RunnerLabels::new(FpgaTarget::Zcu104, false).into_vec();
    let zcu_dry = RunnerLabels::new(FpgaTarget::Zcu104, true).into_vec();
    assert_eq!(zcu, zcu_dry);

    let nightly = RunnerLabels::new(FpgaTarget::Zcu104Nightly, false).into_vec();
    let nightly_dry = RunnerLabels::new(FpgaTarget::Zcu104Nightly, true).into_vec();
    assert_eq!(nightly, nightly_dry);

    let vck = RunnerLabels::new(FpgaTarget::Vck190, false).into_vec();
    let vck_dry = RunnerLabels::new(FpgaTarget::Vck190, true).into_vec();
    assert_eq!(vck, vec!["vck190".to_string()]);
    assert_eq!(vck_dry, vec!["vck190-staging".to_string()]);
    assert_eq!(vck_dry[0], format!("{}-staging", vck[0]));
}
