use modpack_installer::{fraction_ppm, scale_into_slot, InstallPipeline, Stage, FULL};

#[test]
fn fractions_in_parts_per_million() {
    assert_eq!(fraction_ppm(1, 3), 333333);
    assert_eq!(fraction_ppm(5, 3), 1000000);
    assert_eq!(fraction_ppm(0, 7), 0);
    assert_eq!(scale_into_slot(0, 1000000), 333333);
    assert_eq!(scale_into_slot(1, 0), 333333);
    assert_eq!(scale_into_slot(1, 500000), 500000);
    assert_eq!(scale_into_slot(2, 1000000), 1000000);
}

#[test]
fn successful_run_is_monotone_and_ends_at_full() {
    let (mut p, first) = InstallPipeline::new();
    assert_eq!(first.ppm, 0);
    assert_eq!(first.message, "Importing instance");
    let mut seen = vec![first.ppm];
    let mut last_event = None;
    while p.stage() != Stage::Done {
        match p.stage() {
            Stage::DownloadPackage | Stage::ExtractPackage | Stage::DownloadIcon => {
                for local in [0u32, 400000, 200000, 1000000] {
                    let e = p.report(local, "working".to_string());
                    seen.push(e.ppm);
                }
            }
            _ => {}
        }
        if let Some(e) = p.complete_stage() {
            seen.push(e.ppm);
            last_event = Some(e);
        }
    }
    for w in seen.windows(2) {
        assert!(w[0] <= w[1]);
    }
    let last = last_event.unwrap();
    assert_eq!(last.ppm, FULL);
    assert_eq!(last.message, "Done");
    assert_eq!(p.last_ppm(), FULL);
}

#[test]
fn stream_progress_lands_in_its_third() {
    let (mut p, _) = InstallPipeline::new();
    p.complete_stage();
    p.complete_stage();
    assert_eq!(p.stage(), Stage::DownloadPackage);
    assert_eq!(p.report(500000, "d".to_string()).ppm, 166666);
    p.complete_stage();
    assert_eq!(p.stage(), Stage::ExtractPackage);
    assert_eq!(p.report(0, "x".to_string()).ppm, 333333);
    assert_eq!(p.report(1000000, "x".to_string()).ppm, 666666);
}

#[test]
fn failure_message_names_stage() {
    let (mut p, _) = InstallPipeline::new();
    p.complete_stage();
    p.complete_stage();
    let msg = p.fail("connection refused");
    assert_eq!(msg, "Error downloading modpack: connection refused");
    assert!(p.is_failed());
    assert_eq!(p.stage(), Stage::DownloadPackage);
}

#[test]
fn failure_at_allocation() {
    let (mut p, _) = InstallPipeline::new();
    p.complete_stage();
    assert_eq!(
        p.fail("Pack"),
        "Failed to find a unique instance directory name: Pack"
    );
}
