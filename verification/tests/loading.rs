use ehce::loading::{data_reload_step, DataReload};
use ehce::loading::{
    hot_reload_action, init_tick, is_folder_loaded, loader_step, state_of, wants_reload,
    AssetEventKind, AssetLoadState, FolderLoadError, GameState, HotReloadAction, InitTransition,
    LoaderStep, ModState,
};

use AssetLoadState::{Failed, Loaded, Loading, NotLoaded};

#[test]
fn default_states() {
    assert_eq!(GameState::default(), GameState::Init);
    assert_eq!(ModState::default(), ModState::NotLoaded);
}

#[test]
fn state_lookup_defaults_to_not_loaded() {
    let table = vec![(1, Loaded), (2, Failed), (1, Failed)];
    assert_eq!(state_of(&table, 1), Loaded);
    assert_eq!(state_of(&table, 2), Failed);
    assert_eq!(state_of(&table, 3), NotLoaded);
}

#[test]
fn folder_missing_or_failed() {
    let mut pending = Some(vec![1, 2]);
    assert_eq!(
        is_folder_loaded(NotLoaded, Some(&vec![1]), &mut pending, &vec![]),
        Err(FolderLoadError::FolderMissing)
    );
    assert_eq!(
        is_folder_loaded(Failed, Some(&vec![1]), &mut pending, &vec![]),
        Err(FolderLoadError::FolderFailed)
    );
    assert_eq!(pending, Some(vec![1, 2]));
}

#[test]
fn folder_without_asset_yet() {
    let mut pending = None;
    assert_eq!(is_folder_loaded(Loading, None, &mut pending, &vec![]), Ok(false));
    assert_eq!(pending, None);
}

#[test]
fn folder_files_tracked_until_loaded() {
    let files = vec![10, 11, 12];
    let mut pending = None;
    let table = vec![(10, Loaded), (11, Loading)];
    assert_eq!(is_folder_loaded(Loaded, Some(&files), &mut pending, &table), Ok(false));
    assert_eq!(pending, Some(vec![11, 12]));
    let table = vec![(10, Loaded), (11, Loaded), (12, Loaded)];
    // the recorded list is used, not the folder's files
    assert_eq!(is_folder_loaded(Loaded, Some(&vec![99]), &mut pending, &table), Ok(true));
    assert_eq!(pending, Some(vec![]));
}

#[test]
fn failed_files_are_reported_and_kept() {
    let files = vec![1, 2, 3];
    let mut pending = None;
    let table = vec![(1, Failed), (2, Loaded), (3, Failed)];
    assert_eq!(
        is_folder_loaded(Loaded, Some(&files), &mut pending, &table),
        Err(FolderLoadError::FilesFailed(vec![1, 3]))
    );
    assert_eq!(pending, Some(vec![1, 3]));
}

#[test]
fn loader_steps() {
    assert_eq!(loader_step(&vec![Ok(true), Ok(true)]), LoaderStep::Construct);
    assert_eq!(loader_step(&vec![]), LoaderStep::Construct);
    assert_eq!(loader_step(&vec![Ok(true), Ok(false)]), LoaderStep::Wait);
    assert_eq!(
        loader_step(&vec![Ok(false), Err(FolderLoadError::FolderMissing), Ok(true), Err(FolderLoadError::FolderFailed)]),
        LoaderStep::Failed(vec![1, 3])
    );
    assert_eq!(LoaderStep::Wait.next_mod_state(), None);
    assert_eq!(LoaderStep::Construct.next_mod_state(), Some(ModState::Pending));
    assert_eq!(LoaderStep::Failed(vec![0]).next_mod_state(), Some(ModState::Pending));
}

#[test]
fn init_transitions() {
    assert_eq!(
        init_tick(1, 3),
        InitTransition {
            game_state: Some(GameState::Error),
            mod_state: Some(ModState::NotLoaded),
            install_loaded_mod: false
        }
    );
    assert_eq!(
        init_tick(0, 2),
        InitTransition {
            game_state: Some(GameState::Gameplay),
            mod_state: Some(ModState::Ready),
            install_loaded_mod: true
        }
    );
    assert_eq!(
        init_tick(0, 0),
        InitTransition { game_state: None, mod_state: None, install_loaded_mod: false }
    );
}

#[test]
fn reload_wanted_for_added_or_modified_with_path() {
    assert!(!wants_reload(&vec![]));
    assert!(!wants_reload(&vec![(AssetEventKind::Removed, true), (AssetEventKind::Added, false)]));
    assert!(wants_reload(&vec![(AssetEventKind::Unused, true), (AssetEventKind::Modified, true)]));
    assert!(wants_reload(&vec![(AssetEventKind::Added, true)]));
    assert!(!wants_reload(&vec![(AssetEventKind::LoadedWithDependencies, true)]));
}

#[test]
fn hot_reload_timer_actions() {
    assert_eq!(hot_reload_action(true, false, true), HotReloadAction::StartTimer);
    assert_eq!(hot_reload_action(true, true, false), HotReloadAction::StartTimer);
    assert_eq!(hot_reload_action(false, true, true), HotReloadAction::TickAndDrop);
    assert_eq!(hot_reload_action(false, false, true), HotReloadAction::Keep);
    assert_eq!(hot_reload_action(false, true, false), HotReloadAction::Keep);
}

#[test]
fn data_reload_decisions() {
    let none = |w| DataReload { replace_data: false, want_full_reload: w, data_reloaded: false };
    assert_eq!(data_reload_step(false, true, true, true), none(true));
    assert_eq!(data_reload_step(true, false, true, false), none(false));
    assert_eq!(
        data_reload_step(true, true, true, true),
        DataReload { replace_data: true, want_full_reload: false, data_reloaded: true }
    );
    assert_eq!(
        data_reload_step(true, true, false, false),
        DataReload { replace_data: false, want_full_reload: true, data_reloaded: false }
    );
}
