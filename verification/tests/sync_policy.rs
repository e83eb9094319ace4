use mllt::scaffold::{dir_plan, file_plan, DirPlan, FilePlan};
use mllt::sync::{asset_destination, sync_step, SyncStep};

#[test]
fn missing_destination_is_copied() {
    assert!(matches!(sync_step(true, false, false, 0, 0), SyncStep::CopyFile));
    assert!(matches!(sync_step(true, false, false, 5, 900), SyncStep::CopyFile));
}

#[test]
fn newer_source_is_copied() {
    assert!(matches!(sync_step(true, false, true, 200, 100), SyncStep::CopyFile));
}

#[test]
fn older_source_is_skipped() {
    assert!(matches!(sync_step(true, false, true, 100, 200), SyncStep::SkipFile));
}

#[test]
fn equal_times_favour_not_copying() {
    assert!(matches!(sync_step(true, false, true, 150, 150), SyncStep::SkipFile));
}

#[test]
fn second_run_copies_nothing() {
    // First run: the destination is missing, so the file is copied; the copy
    // stamps the destination with a time no earlier than the source's.
    assert!(matches!(sync_step(true, false, false, 100, 0), SyncStep::CopyFile));
    let stamped: u128 = 170;
    assert!(matches!(sync_step(true, false, true, 100, stamped), SyncStep::SkipFile));

    // Touching one source re-copies that file alone: an untouched sibling
    // still reads the same times and skips.
    assert!(matches!(sync_step(true, false, true, 300, stamped), SyncStep::CopyFile));
    assert!(matches!(sync_step(true, false, true, 100, stamped), SyncStep::SkipFile));
}

#[test]
fn directories_created_once() {
    assert!(matches!(sync_step(false, true, false, 0, 0), SyncStep::MakeDir));
    assert!(matches!(sync_step(false, true, true, 0, 0), SyncStep::Leave));
}

#[test]
fn other_entries_left_alone() {
    assert!(matches!(sync_step(false, false, false, 0, 0), SyncStep::Leave));
}

#[test]
fn asset_destination_mirrors_tree() {
    assert_eq!(
        asset_destination("assets/img/logo.png", "assets", "out", '/').unwrap(),
        "out/img/logo.png"
    );
    assert_eq!(asset_destination("assets", "assets", "out", '/').unwrap(), "out/");
    assert!(asset_destination("elsewhere/logo.png", "assets", "out", '/').is_err());
}

#[test]
fn directory_plan_rules() {
    assert!(matches!(dir_plan(true, false, false, true, true), DirPlan::RefuseFile));
    assert!(matches!(dir_plan(false, true, true, true, false), DirPlan::Use));
    assert!(matches!(dir_plan(false, true, false, true, true), DirPlan::Use));
    assert!(matches!(dir_plan(false, true, false, true, false), DirPlan::RefuseNonEmpty));
    assert!(matches!(dir_plan(false, false, false, true, false), DirPlan::RefuseUnknown));
    assert!(matches!(dir_plan(false, false, false, false, false), DirPlan::Create));
}

#[test]
fn file_plan_rules() {
    assert!(matches!(file_plan(false, false), FilePlan::Write));
    assert!(matches!(file_plan(true, true), FilePlan::Overwrite));
    assert!(matches!(file_plan(true, false), FilePlan::RefuseExisting));
}
