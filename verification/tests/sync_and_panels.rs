use auto_git::app_state::{AppState, PanelEvent, Panels, Report, SyncAction, SyncEvent, SyncRound, SyncStage};
use auto_git::error::{io_error, IoErrorKind};

fn step(round: SyncRound, event: SyncEvent) -> (SyncRound, SyncAction) {
    assert!(round.accepts_exec(&event));
    round.step(event)
}

#[test]
fn a_round_stages_checks_updates_and_rests() {
    let (round, action) = SyncRound::start();
    assert_eq!(action, SyncAction::Stage);
    let (round, action) = step(round, SyncEvent::Staged);
    assert_eq!(action, SyncAction::CheckConnection);
    let (round, action) = step(round, SyncEvent::ConnectionChecked { exiting: false, online: true });
    assert_eq!(action, SyncAction::Update);
    let (round, action) = step(
        round,
        SyncEvent::Updated { status: Some("Your branch is up to date with 'o/m'".to_string()), project_selected: true, processing: false },
    );
    assert_eq!(action, SyncAction::Settle(None));
    let (round, action) = step(round, SyncEvent::Settled { processing: false });
    assert_eq!(action, SyncAction::Rest);
    let (round, action) = step(round, SyncEvent::Rested);
    assert_eq!(action, SyncAction::Stage);
    assert_eq!(round.stage, SyncStage::Staging);
}

#[test]
fn a_round_pulls_when_the_remote_is_ahead() {
    let round = SyncRound { stage: SyncStage::Updating };
    let (round, action) = step(round, SyncEvent::Updated { status: Some("Your branch is behind".to_string()), project_selected: true, processing: false });
    assert_eq!(action, SyncAction::Pull);
    let (_, action) = step(round, SyncEvent::Pulled(Ok(())));
    assert_eq!(action, SyncAction::Settle(Some(AppState::Success("Pull completed successfully".to_string()))));
    let round = SyncRound { stage: SyncStage::Pulling };
    let (_, action) = step(round, SyncEvent::Pulled(Err(io_error(IoErrorKind::Other, "x"))));
    assert_eq!(action, SyncAction::Settle(Some(AppState::Error("Error in pull operation".to_string()))));
}

#[test]
fn offline_exit_and_busy_rounds() {
    let (_, action) = step(SyncRound { stage: SyncStage::Connecting }, SyncEvent::ConnectionChecked { exiting: true, online: false });
    assert_eq!(action, SyncAction::Stop);
    let (_, action) = step(SyncRound { stage: SyncStage::Connecting }, SyncEvent::ConnectionChecked { exiting: false, online: false });
    assert_eq!(action, SyncAction::Rest);
    let (_, action) = step(SyncRound { stage: SyncStage::Settling }, SyncEvent::Settled { processing: true });
    assert_eq!(action, SyncAction::Stage);
    let (_, action) = step(
        SyncRound { stage: SyncStage::Updating },
        SyncEvent::Updated { status: Some("Your branch is ahead of 'o/m'".to_string()), project_selected: true, processing: true },
    );
    assert_eq!(action, SyncAction::Stage);
    let (round, action) = step(SyncRound { stage: SyncStage::Updating }, SyncEvent::Updated { status: None, project_selected: false, processing: false });
    assert_eq!(
        action,
        SyncAction::ReportThenStage(Report {
            state: Some(AppState::Error("Configure the project path from the menu 'Set Project'".to_string())),
            line: Some("\u{274c} Error executing the status command: Set the project path".to_string())
        })
    );
    assert_eq!(round.stage, SyncStage::Staging);
    assert!(!SyncRound { stage: SyncStage::Stopped }.accepts_exec(&SyncEvent::Rested));
}

#[test]
fn panels_open_and_close() {
    let mut p = Panels::new();
    assert!(p.lists_untracked());
    p.apply(PanelEvent::UntrackedListed);
    assert!(p.untracked_files_expanded && !p.lists_untracked());
    p.apply(PanelEvent::AddConfirmed);
    assert!(!p.untracked_files_expanded && p.untracked_files_to_add && !p.lists_untracked());
    p.apply(PanelEvent::PushStarted);
    assert!(p.commit_input_expanded && !p.complete_push);
    p.apply(PanelEvent::CommitConfirmed);
    assert!(p.complete_push);
    p.apply(PanelEvent::PushFinished);
    assert!(!p.commit_input_expanded && !p.complete_push);
    p.apply(PanelEvent::RestoreListed);
    p.apply(PanelEvent::RestoreConfirmed);
    assert!(p.files_to_restore && !p.restore_files_expanded && !p.lists_restore());
    p.apply(PanelEvent::RestoreFinished);
    assert!(!p.files_to_restore && p.lists_restore());
    p.apply(PanelEvent::StatusShown);
    assert!(p.terminal_expanded);
    p.apply(PanelEvent::TerminalToggled);
    assert!(!p.terminal_expanded);
    p.apply(PanelEvent::RestoreListed);
    p.apply(PanelEvent::PushStarted);
    p.apply(PanelEvent::Cleared);
    assert!(!p.restore_files_expanded && !p.commit_input_expanded && !p.untracked_files_expanded);
    assert!(p.untracked_files_to_add);
}
