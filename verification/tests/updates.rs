use ai_usage_monitor::install::{
    apply_update, backup_path_for, begin_self_update, cli_exit, first_self_update_step,
    handle_cli_mode, helper_arguments, partial_download_name, wait_for_process_exit, wait_result,
    ApplyNext, ApplyOutcome, ApplyStep, ProcessWait, SelfUpdateNext, SelfUpdateStep, StepOutcome,
    EXIT_TIMEOUT_MS, REPLACE_ATTEMPTS, WAIT_OBJECT_0, WAIT_TIMEOUT,
};
use ai_usage_monitor::replace::{FileOutcome, ReplacePhase, Replacement};
use ai_usage_monitor::updater::{
    check_for_updates, fetch_latest_release, github_repo, release_request, release_url,
    user_agent, FetchFailure, GitHubAsset, GitHubRelease, UpdateCheckResult,
};

fn asset(name: &str, url: &str) -> GitHubAsset {
    GitHubAsset { name: name.to_string(), browser_download_url: url.to_string() }
}

fn release(tag: &str, assets: Vec<GitHubAsset>) -> GitHubRelease {
    GitHubRelease { tag_name: tag.to_string(), assets }
}

fn words(list: &[&str]) -> Vec<String> {
    let mut out = Vec::new();
    for word in list {
        out.push(word.to_string());
    }
    out
}

fn failed(text: &str) -> StepOutcome {
    StepOutcome::Failed(text.to_string())
}

#[test]
fn a_newer_release_is_offered() {
    let data = release(
        "v1.3.0",
        vec![
            asset("other.exe", "https://x/other"),
            asset("AI-Usage-Monitor.EXE", "https://x/monitor"),
        ],
    );
    let found = fetch_latest_release(Ok(data), "1.2.0").unwrap().unwrap();
    assert_eq!(found.latest_version, "1.3.0");
    assert_eq!(found.asset_url, "https://x/monitor");
    let again = found.clone();
    assert_eq!(again.latest_version, "1.3.0");
    assert_eq!(again.asset_url, "https://x/monitor");
}

#[test]
fn every_leading_v_of_a_tag_is_dropped() {
    let data = release("vv2", vec![asset("a.exe", "u")]);
    let found = fetch_latest_release(Ok(data), "1.0.0").unwrap().unwrap();
    assert_eq!(found.latest_version, "2");
}

#[test]
fn the_first_executable_stands_in() {
    let data = release(
        "v2",
        vec![asset("notes.txt", "n"), asset("Setup.EXE", "first"), asset("b.exe", "second")],
    );
    let found = fetch_latest_release(Ok(data), "1.0.0").unwrap().unwrap();
    assert_eq!(found.asset_url, "first");
}

#[test]
fn the_same_or_an_older_release_is_not_offered() {
    for tag in ["v1.2.0", "1.2", "v1.1.9", "v1.2.0-rc1", "nonsense"] {
        let data = release(tag, vec![asset("ai-usage-monitor.exe", "u")]);
        assert!(fetch_latest_release(Ok(data), "1.2.0").unwrap().is_none());
    }
}

#[test]
fn a_newer_release_without_an_executable_is_an_error() {
    let data = release("v9", vec![asset("source.zip", "z"), asset("exe", "e")]);
    assert_eq!(
        fetch_latest_release(Ok(data), "1.0.0").unwrap_err(),
        "No Windows executable asset was found in the latest release."
    );
    let older = release("v0.1", vec![]);
    assert!(fetch_latest_release(Ok(older), "1.0.0").unwrap().is_none());
}

#[test]
fn failures_to_get_release_data_have_their_messages() {
    let cases = [
        (
            FetchFailure::Tls("no tls".to_string()),
            "Unable to initialize TLS support for update checks: no tls",
        ),
        (
            FetchFailure::Request("offline".to_string()),
            "Unable to check GitHub releases: offline",
        ),
        (
            FetchFailure::Body("eof".to_string()),
            "Unable to parse GitHub release data: eof",
        ),
    ];
    for (failure, message) in cases {
        assert_eq!(check_for_updates(Err(failure), "1.0").unwrap_err(), message);
    }
}

#[test]
fn a_check_ends_with_or_without_a_release() {
    let data = release("v2", vec![asset("ai-usage-monitor.exe", "u")]);
    match check_for_updates(Ok(data), "1.0.0").unwrap() {
        UpdateCheckResult::Available(found) => assert_eq!(found.latest_version, "2"),
        UpdateCheckResult::UpToDate => panic!(),
    }
    let data = release("v1", vec![]);
    assert!(matches!(
        check_for_updates(Ok(data), "1.0.0").unwrap(),
        UpdateCheckResult::UpToDate
    ));
}

#[test]
fn the_repository_is_taken_from_its_address() {
    assert_eq!(
        github_repo("https://github.com/jpribil/AI-Usage-Monitor").unwrap(),
        ("jpribil", "AI-Usage-Monitor")
    );
    assert_eq!(github_repo("a/b//").unwrap(), ("a", "b"));
    for bad in ["", "/", "only", "only/", "a//b", "/b"] {
        assert_eq!(
            github_repo(bad).unwrap_err(),
            "Package repository URL is not configured for GitHub releases."
        );
    }
}

#[test]
fn the_latest_release_has_its_address() {
    assert_eq!(
        release_url("me", "it"),
        "https://api.github.com/repos/me/it/releases/latest"
    );
    assert_eq!(
        release_request("https://github.com/me/it/").unwrap(),
        "https://api.github.com/repos/me/it/releases/latest"
    );
    assert_eq!(
        release_request("it").unwrap_err(),
        "Package repository URL is not configured for GitHub releases."
    );
    assert_eq!(user_agent("ai-usage-monitor", "1.2.3"), "ai-usage-monitor/1.2.3");
}

#[test]
fn the_helper_is_asked_by_its_command_line() {
    let args = words(&["helper.exe", "--apply-update", "C:\\a.exe", "D:\\b.exe", "77"]);
    let request = handle_cli_mode(&args).unwrap();
    assert_eq!(request.target, "C:\\a.exe");
    assert_eq!(request.source, "D:\\b.exe");
    assert_eq!(request.pid, 77);
    let odd = words(&["helper.exe", "--apply-update", "a", "b", "seven"]);
    assert_eq!(handle_cli_mode(&odd).unwrap().pid, 0);
    assert!(handle_cli_mode(&words(&["helper.exe"])).is_none());
    assert!(handle_cli_mode(&words(&["x", "--apply-update", "a", "b"])).is_none());
    assert!(handle_cli_mode(&words(&["x", "--diagnose", "a", "b", "1"])).is_none());
    assert!(handle_cli_mode(&words(&["x", "--apply-update", "a", "b", "1", "2"])).is_none());
    assert!(handle_cli_mode(&[]).is_none());
}

#[test]
fn the_helper_reads_what_it_was_handed() {
    let mut args = words(&["updater-helper.exe"]);
    args.extend(helper_arguments("C:\\with space\\a.exe", "", u32::MAX));
    assert_eq!(args.len(), 5);
    let request = handle_cli_mode(&args).unwrap();
    assert_eq!(request.target, "C:\\with space\\a.exe");
    assert_eq!(request.source, "");
    assert_eq!(request.pid, u32::MAX);
}

#[test]
fn the_helper_has_its_exit_codes() {
    assert_eq!(cli_exit(Ok(())), (0, None));
    assert_eq!(cli_exit(Err("broken".to_string())), (1, Some("broken".to_string())));
}

#[test]
fn files_beside_others_have_their_names() {
    assert_eq!(partial_download_name(), "update-download.exe.part");
    assert_eq!(backup_path_for(Some("ai-usage-monitor.exe")), "ai-usage-monitor.exe.old");
    assert_eq!(backup_path_for(Some("")), ".old");
    assert_eq!(backup_path_for(None), "app.exe.old");
}

#[test]
fn an_update_is_staged_step_by_step() {
    let mut step = first_self_update_step();
    let mut seen = vec![step];
    loop {
        match begin_self_update(step, StepOutcome::Done) {
            SelfUpdateNext::Perform(next) => {
                seen.push(next);
                step = next;
            }
            SelfUpdateNext::Finished => break,
            SelfUpdateNext::Failed(e) => panic!("{e}"),
        }
    }
    assert_eq!(
        seen,
        vec![
            SelfUpdateStep::LocateExecutable,
            SelfUpdateStep::ProbeInstallDir,
            SelfUpdateStep::CreateStageDir,
            SelfUpdateStep::ClearStage,
            SelfUpdateStep::BuildAgent,
            SelfUpdateStep::RequestAsset,
            SelfUpdateStep::CreatePartial,
            SelfUpdateStep::WritePartial,
            SelfUpdateStep::FlushPartial,
            SelfUpdateStep::RenamePartial,
            SelfUpdateStep::CopyHelper,
            SelfUpdateStep::LaunchHelper,
        ]
    );
}

#[test]
fn a_failed_step_ends_the_update_with_its_message() {
    let cases = [
        (SelfUpdateStep::LocateExecutable, "Unable to locate current executable: E"),
        (
            SelfUpdateStep::ProbeInstallDir,
            "The current install location is not writable. Move the app to a user-writable folder or install it somewhere outside Program Files. E",
        ),
        (SelfUpdateStep::CreateStageDir, "Unable to create updater working directory: E"),
        (
            SelfUpdateStep::BuildAgent,
            "Unable to initialize TLS support for update checks: E",
        ),
        (SelfUpdateStep::RequestAsset, "Unable to download the latest release: E"),
        (SelfUpdateStep::CreatePartial, "Unable to create temporary download file: E"),
        (SelfUpdateStep::WritePartial, "Unable to write the downloaded update: E"),
        (SelfUpdateStep::FlushPartial, "Unable to finalize the downloaded update: E"),
        (
            SelfUpdateStep::RenamePartial,
            "Unable to finalize the downloaded update file: E",
        ),
        (SelfUpdateStep::CopyHelper, "Unable to prepare updater helper: E"),
        (SelfUpdateStep::LaunchHelper, "Unable to launch updater helper: E"),
    ];
    for (step, message) in cases {
        match begin_self_update(step, failed("E")) {
            SelfUpdateNext::Failed(e) => assert_eq!(e, message),
            _ => panic!("{step:?}"),
        }
    }
    match begin_self_update(SelfUpdateStep::ProbeInstallDir, StepOutcome::NoInstallDir) {
        SelfUpdateNext::Failed(e) => assert_eq!(
            e,
            "Unable to determine the install directory for the current executable."
        ),
        _ => panic!(),
    }
}

#[test]
fn leftovers_do_not_end_an_update() {
    assert!(matches!(
        begin_self_update(SelfUpdateStep::ClearStage, failed("locked")),
        SelfUpdateNext::Perform(SelfUpdateStep::BuildAgent)
    ));
}

#[test]
fn the_helper_works_step_by_step() {
    let next = |step, outcome| apply_update(step, outcome, "D:\\new.exe");
    let broken = || ApplyOutcome::Failed("E".to_string());
    assert!(matches!(
        next(ApplyStep::FindSource, ApplyOutcome::Done),
        ApplyNext::Perform(ApplyStep::WaitForExit)
    ));
    assert!(matches!(
        next(ApplyStep::WaitForExit, ApplyOutcome::Done),
        ApplyNext::Perform(ApplyStep::ReplaceTarget)
    ));
    assert!(matches!(
        next(ApplyStep::WaitForExit, broken()),
        ApplyNext::Perform(ApplyStep::ReplaceTarget)
    ));
    assert!(matches!(
        next(ApplyStep::ReplaceTarget, ApplyOutcome::Done),
        ApplyNext::Perform(ApplyStep::RelaunchTarget)
    ));
    assert!(matches!(
        next(ApplyStep::RelaunchTarget, ApplyOutcome::Done),
        ApplyNext::Perform(ApplyStep::RemoveSource)
    ));
    assert!(matches!(next(ApplyStep::RemoveSource, ApplyOutcome::Done), ApplyNext::Finished));
    assert!(matches!(next(ApplyStep::RemoveSource, broken()), ApplyNext::Finished));
    match next(ApplyStep::FindSource, broken()) {
        ApplyNext::Failed(e) => assert_eq!(e, "Downloaded update not found at D:\\new.exe"),
        _ => panic!(),
    }
    match next(ApplyStep::ReplaceTarget, broken()) {
        ApplyNext::Failed(e) => assert_eq!(e, "E"),
        _ => panic!(),
    }
    match next(ApplyStep::RelaunchTarget, broken()) {
        ApplyNext::Failed(e) => assert_eq!(
            e,
            "The update was installed, but the app could not be restarted automatically: E"
        ),
        _ => panic!(),
    }
}

#[test]
fn the_helper_waits_for_a_process_that_there_is() {
    assert_eq!(wait_for_process_exit(0, 1), None);
    assert_eq!(wait_for_process_exit(5, EXIT_TIMEOUT_MS), Some(30_000));
    assert_eq!(wait_for_process_exit(5, u32::MAX as u128), Some(u32::MAX));
    assert_eq!(wait_for_process_exit(5, u128::MAX), Some(u32::MAX));
}

#[test]
fn the_end_of_a_wait_has_its_meaning() {
    assert_eq!(wait_result(ProcessWait::Ended(WAIT_OBJECT_0)), Ok(()));
    assert_eq!(
        wait_result(ProcessWait::Ended(WAIT_TIMEOUT)).unwrap_err(),
        "Timed out waiting for the running app to exit."
    );
    assert_eq!(
        wait_result(ProcessWait::Ended(0xFFFF_FFFF)).unwrap_err(),
        "Unable to confirm that the running app has exited."
    );
    assert_eq!(
        wait_result(ProcessWait::NotWatched("denied".to_string())).unwrap_err(),
        "Unable to monitor the running app process: denied"
    );
}

#[test]
fn the_codes_of_a_wait_are_those_of_windows() {
    assert_eq!(WAIT_OBJECT_0, 0);
    assert_eq!(WAIT_TIMEOUT, 258);
}

/// The files that a replacement works on, in memory.
struct Files {
    target: Option<&'static str>,
    backup: Option<&'static str>,
    source: &'static str,
}

fn no_file() -> FileOutcome {
    FileOutcome::NotFound("no such file".to_string())
}

/// Performs what is due. `locked` attempts cannot rename the target; `full`
/// ones fail in the middle of the copy.
fn perform(r: &Replacement, files: &mut Files, locked: u32, full: u32) -> FileOutcome {
    match r.phase {
        ReplacePhase::RemoveBackup | ReplacePhase::CleanBackup => match files.backup.take() {
            Some(_) => FileOutcome::Done,
            None => no_file(),
        },
        ReplacePhase::MoveAside => {
            if r.attempt < locked {
                return FileOutcome::Failed("locked".to_string());
            }
            match files.target.take() {
                Some(t) => {
                    files.backup = Some(t);
                    FileOutcome::Done
                }
                None => no_file(),
            }
        }
        ReplacePhase::CopyNew => {
            if r.attempt < full {
                files.target = Some("half");
                return FileOutcome::Failed("disk full".to_string());
            }
            files.target = Some(files.source);
            FileOutcome::Done
        }
        ReplacePhase::RemoveBroken => match files.target.take() {
            Some(_) => FileOutcome::Done,
            None => no_file(),
        },
        ReplacePhase::Restore => match files.backup.take() {
            Some(b) => {
                files.target = Some(b);
                FileOutcome::Done
            }
            None => no_file(),
        },
        _ => FileOutcome::Done,
    }
}

fn run_replacement(files: &mut Files, locked: u32, full: u32) -> (Replacement, u32) {
    let mut r = Replacement::new();
    let mut work = 0;
    while r.phase != ReplacePhase::Succeeded && r.phase != ReplacePhase::GaveUp {
        let outcome = perform(&r, files, locked, full);
        r.replace_target_binary(outcome);
        work += 1;
        assert!(work <= 7 * REPLACE_ATTEMPTS);
    }
    (r, work)
}

#[test]
fn a_replacement_puts_the_new_binary_in_place() {
    let mut files = Files { target: Some("old"), backup: Some("stale"), source: "new" };
    let (r, work) = run_replacement(&mut files, 0, 0);
    assert!(r.phase == ReplacePhase::Succeeded);
    assert_eq!(work, 4);
    assert_eq!(files.target, Some("new"));
    assert_eq!(files.backup, None);
}

#[test]
fn a_replacement_needs_no_old_binary() {
    let mut files = Files { target: None, backup: None, source: "new" };
    let (r, _) = run_replacement(&mut files, 0, 1);
    assert!(r.phase == ReplacePhase::Succeeded);
    assert_eq!(files.target, Some("new"));
}

#[test]
fn a_replacement_tries_again() {
    let mut files = Files { target: Some("old"), backup: None, source: "new" };
    let (r, _) = run_replacement(&mut files, 3, 5);
    assert!(r.phase == ReplacePhase::Succeeded);
    assert_eq!(r.attempt, 5);
    assert_eq!(files.target, Some("new"));
    assert_eq!(files.backup, None);
}

#[test]
fn a_replacement_that_is_given_up_keeps_the_old_binary() {
    let mut files = Files { target: Some("old"), backup: None, source: "new" };
    let (r, work) = run_replacement(&mut files, 0, 1000);
    assert!(r.phase == ReplacePhase::GaveUp);
    assert_eq!(r.attempt, 60);
    assert_eq!(work, 6 * 60);
    assert_eq!(files.target, Some("old"));
    assert_eq!(files.backup, None);
    assert_eq!(r.error_message("C:\\a.exe"), "Unable to replace C:\\a.exe. disk full");

    let mut files = Files { target: Some("old"), backup: Some("stale"), source: "new" };
    let (r, work) = run_replacement(&mut files, 1000, 0);
    assert_eq!(work, 3 * 60);
    assert_eq!(files.target, Some("old"));
    assert_eq!(files.backup, None);
    assert_eq!(r.error_message("C:\\a.exe"), "Unable to replace C:\\a.exe. locked");
}

#[test]
fn a_replacement_without_an_error_has_a_message_too() {
    assert_eq!(
        Replacement::new().error_message("t"),
        "Unable to replace t. The file may still be locked or the install directory may not be writable."
    );
}

#[test]
fn a_replacement_that_is_over_stays_so() {
    let mut files = Files { target: Some("old"), backup: None, source: "new" };
    let (mut r, _) = run_replacement(&mut files, 0, 0);
    r.replace_target_binary(FileOutcome::Failed("late".to_string()));
    assert!(r.phase == ReplacePhase::Succeeded);
    assert!(r.last_error.is_none());
}

#[test]
fn a_broken_copy_that_cannot_be_removed_is_replaced_by_the_old_binary() {
    let mut r = Replacement::new();
    r.replace_target_binary(no_file());
    r.replace_target_binary(FileOutcome::Done);
    r.replace_target_binary(FileOutcome::Failed("disk full".to_string()));
    assert!(r.phase == ReplacePhase::RemoveBroken);
    r.replace_target_binary(FileOutcome::Failed("busy".to_string()));
    assert!(r.phase == ReplacePhase::Restore);
    r.replace_target_binary(FileOutcome::Done);
    assert!(r.phase == ReplacePhase::Pause);
    assert_eq!(r.last_error.as_deref(), Some("disk full"));
}

#[test]
fn a_success_puts_the_new_binary_in_place_whatever_failed_before() {
    let mut files = Files { target: Some("old"), backup: None, source: "new" };
    let mut r = Replacement::new();
    while r.phase != ReplacePhase::Succeeded {
        // The first attempt can neither remove the broken copy nor rename back.
        let undoing =
            r.phase == ReplacePhase::RemoveBroken || r.phase == ReplacePhase::Restore;
        let outcome = if undoing {
            FileOutcome::Failed("busy".to_string())
        } else {
            perform(&r, &mut files, 0, 1)
        };
        r.replace_target_binary(outcome);
    }
    assert_eq!(r.attempt, 1);
    assert_eq!(files.target, Some("new"));
}
