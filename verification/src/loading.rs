//! The game's and the mod loader's states, and the decisions taken from one
//! frame to the next while a mod loads, fails, or is reloaded.

use vstd::prelude::*;

verus! {

/// The state of the whole game.
#[derive(Debug, Clone, Copy, PartialEq, Eq, Hash, Structural)]
pub enum GameState {
    /// Critical unrecoverable error state
    Error,
    /// Application initialization state
    Init,
    /// Gameplay state
    Gameplay,
}

impl Default for GameState {
    fn default() -> (r: Self)
        ensures
            r == GameState::Init,
    {
        GameState::Init
    }
}

/// The state of mod loading.
#[derive(Debug, Clone, Copy, PartialEq, Eq, Hash, Structural)]
pub enum ModState {
    /// Default state, signifying that no mod is loaded
    NotLoaded,
    /// State signifying that a mod is loading
    Loading,
    /// State signifying that a mod loading is finished and awaiting handling
    /// from the current state
    Pending,
    /// State signifying a loaded mod, and listening for hot reload events
    Ready,
}

impl Default for ModState {
    fn default() -> (r: Self)
        ensures
            r == ModState::NotLoaded,
    {
        ModState::NotLoaded
    }
}

/// Message that triggers loading of a new mod.
///
/// Should generally be only raised by app code, but not listened to
#[derive(Debug, Clone, Copy, PartialEq, Eq)]
pub struct WantLoadModMessage;

/// Message that is triggered when hot reload happens
#[derive(Debug, Clone, Copy, PartialEq, Eq)]
pub struct ModHotReloadMessage;

/// The group of systems that watch for changed mod files.
#[derive(Debug, Clone, Copy, PartialEq, Eq, Hash)]
pub struct HotReloading;

/// The group of systems that watch for changed mod files, as the mod
/// loading plugin names it.
#[derive(Debug, Clone, Copy, PartialEq, Eq, Hash)]
pub struct HotReloadingSystems;

/// How far the asset server has come with one asset.
#[derive(Debug, Clone, Copy, PartialEq, Eq, Structural)]
pub enum AssetLoadState {
    NotLoaded,
    Loading,
    Loaded,
    Failed,
}

/// Why a mod folder did not load.
#[derive(Debug, Clone, PartialEq, Eq)]
pub enum FolderLoadError {
    /// The folder is unknown to the asset server
    FolderMissing,
    /// The folder itself failed to load
    FolderFailed,
    /// These files of the folder failed to load
    FilesFailed(Vec<u64>),
}

/// The load state of asset `id` in a table of known states: the first
/// entry for it, or `NotLoaded` when it has none.
pub open spec fn spec_state_of(table: Seq<(u64, AssetLoadState)>, id: u64) -> AssetLoadState
    decreases table.len(),
{
    if table.len() == 0 {
        AssetLoadState::NotLoaded
    } else if table[0].0 == id {
        table[0].1
    } else {
        spec_state_of(table.drop_first(), id)
    }
}

/// The assets of `ids` that have not loaded yet, in order.
pub open spec fn spec_still_pending(ids: Seq<u64>, table: Seq<(u64, AssetLoadState)>) -> Seq<u64>
    decreases ids.len(),
{
    if ids.len() == 0 {
        Seq::empty()
    } else {
        let rest = spec_still_pending(ids.drop_last(), table);
        if spec_state_of(table, ids.last()) == AssetLoadState::Loaded {
            rest
        } else {
            rest.push(ids.last())
        }
    }
}

/// The assets of `ids` that failed to load, in order.
pub open spec fn spec_failed(ids: Seq<u64>, table: Seq<(u64, AssetLoadState)>) -> Seq<u64>
    decreases ids.len(),
{
    if ids.len() == 0 {
        Seq::empty()
    } else {
        let rest = spec_failed(ids.drop_last(), table);
        if spec_state_of(table, ids.last()) == AssetLoadState::Failed {
            rest.push(ids.last())
        } else {
            rest
        }
    }
}

/// The assets still awaited after a check are exactly those of the
/// earlier list that have not loaded.
pub proof fn law_pending_are_not_loaded(ids: Seq<u64>, table: Seq<(u64, AssetLoadState)>, x: u64)
    ensures
        spec_still_pending(ids, table).contains(x) <==> (ids.contains(x) && spec_state_of(table, x)
            != AssetLoadState::Loaded),
    decreases ids.len(),
{
    if ids.len() > 0 {
        let rest = ids.drop_last();
        law_pending_are_not_loaded(rest, table, x);
        assert(ids =~= rest.push(ids.last()));
        assert(ids.contains(x) <==> (rest.contains(x) || ids.last() == x)) by {
            if ids.contains(x) {
                let i = choose|i: int| 0 <= i < ids.len() && ids[i] == x;
                if i < ids.len() - 1 {
                    assert(rest[i] == x);
                }
            }
            if rest.contains(x) {
                let i = choose|i: int| 0 <= i < rest.len() && rest[i] == x;
                assert(ids[i] == x);
            }
        }
        let p = spec_still_pending(rest, table);
        if spec_state_of(table, ids.last()) != AssetLoadState::Loaded {
            assert(p.push(ids.last()).contains(x) <==> (p.contains(x) || ids.last() == x)) by {
                if p.push(ids.last()).contains(x) {
                    let i = choose|i: int| 0 <= i < p.len() + 1 && p.push(ids.last())[i] == x;
                    if i < p.len() {
                        assert(p[i] == x);
                    }
                }
                if p.contains(x) {
                    let i = choose|i: int| 0 <= i < p.len() && p[i] == x;
                    assert(p.push(ids.last())[i] == x);
                }
                assert(p.push(ids.last())[p.len() as int] == ids.last());
            }
        }
    }
}

/// Every asset that failed stays among those awaited, so that a later
/// check reports it again.
pub proof fn law_failed_stay_pending(ids: Seq<u64>, table: Seq<(u64, AssetLoadState)>, x: u64)
    requires
        spec_failed(ids, table).contains(x),
    ensures
        spec_still_pending(ids, table).contains(x),
    decreases ids.len(),
{
    let rest = ids.drop_last();
    let f = spec_failed(rest, table);
    if f.contains(x) {
        law_failed_stay_pending(rest, table, x);
        law_pending_are_not_loaded(rest, table, x);
        law_pending_are_not_loaded(ids, table, x);
        let i = choose|i: int| 0 <= i < rest.len() && rest[i] == x;
        assert(ids[i] == x);
    } else {
        let i = choose|i: int| 0 <= i < spec_failed(ids, table).len() && spec_failed(ids, table)[i] == x;
        assert(spec_failed(ids, table) == f.push(ids.last()));
        assert(x == ids.last());
        law_pending_are_not_loaded(ids, table, x);
        assert(ids[ids.len() - 1] == x);
    }
}

/// The assets reported as failed are exactly those of the list whose load
/// failed.
pub proof fn law_failed_are_failed(ids: Seq<u64>, table: Seq<(u64, AssetLoadState)>, x: u64)
    ensures
        spec_failed(ids, table).contains(x) <==> (ids.contains(x) && spec_state_of(table, x)
            == AssetLoadState::Failed),
    decreases ids.len(),
{
    if ids.len() > 0 {
        let rest = ids.drop_last();
        law_failed_are_failed(rest, table, x);
        assert(ids.contains(x) <==> (rest.contains(x) || ids.last() == x)) by {
            if ids.contains(x) {
                let i = choose|i: int| 0 <= i < ids.len() && ids[i] == x;
                if i < ids.len() - 1 {
                    assert(rest[i] == x);
                }
            }
            if rest.contains(x) {
                let i = choose|i: int| 0 <= i < rest.len() && rest[i] == x;
                assert(ids[i] == x);
            }
        }
        let f = spec_failed(rest, table);
        if spec_state_of(table, ids.last()) == AssetLoadState::Failed {
            assert(f.push(ids.last()).contains(x) <==> (f.contains(x) || ids.last() == x)) by {
                if f.push(ids.last()).contains(x) {
                    let i = choose|i: int| 0 <= i < f.len() + 1 && f.push(ids.last())[i] == x;
                    if i < f.len() {
                        assert(f[i] == x);
                    }
                }
                if f.contains(x) {
                    let i = choose|i: int| 0 <= i < f.len() && f[i] == x;
                    assert(f.push(ids.last())[i] == x);
                }
                assert(f.push(ids.last())[f.len() as int] == ids.last());
            }
        }
    }
}

/// The state of an asset is that of its first entry in the table, and
/// `NotLoaded` when the table has no entry for it.
pub proof fn law_state_of_first_entry(table: Seq<(u64, AssetLoadState)>, id: u64, i: int)
    ensures
        (forall|j: int| 0 <= j < table.len() ==> #[trigger] table[j].0 != id) ==> spec_state_of(
            table,
            id,
        ) == AssetLoadState::NotLoaded,
        0 <= i < table.len() && table[i].0 == id && (forall|j: int| 0 <= j < i ==> #[trigger] table[j].0
            != id) ==> spec_state_of(table, id) == table[i].1,
    decreases table.len(),
{
    if table.len() > 0 {
        let rest = table.drop_first();
        law_state_of_first_entry(rest, id, i - 1);
        if forall|j: int| 0 <= j < table.len() ==> #[trigger] table[j].0 != id {
            assert(table[0].0 != id);
            assert forall|j: int| 0 <= j < rest.len() implies #[trigger] rest[j].0 != id by {
                assert(rest[j] == table[j + 1]);
            }
        }
        if 0 < i < table.len() && table[i].0 == id && (forall|j: int| 0 <= j < i ==> #[trigger] table[j].0
            != id) {
            assert(table[0].0 != id);
            assert(rest[i - 1] == table[i]);
            assert forall|j: int| 0 <= j < i - 1 implies #[trigger] rest[j].0 != id by {
                assert(rest[j] == table[j + 1]);
            }
        }
    }
}

/// Looks up the load state of asset `id`.
pub fn state_of(table: &Vec<(u64, AssetLoadState)>, id: u64) -> (r: AssetLoadState)
    ensures
        r == spec_state_of(table@, id),
{
    let mut k: usize = 0;
    assert(table@.skip(0) =~= table@);
    while k < table.len()
        invariant
            0 <= k <= table.len(),
            spec_state_of(table@, id) == spec_state_of(table@.skip(k as int), id),
        decreases table.len() - k,
    {
        let (key, state) = table[k];
        if key == id {
            return state;
        }
        proof {
            assert(table@.skip(k as int).drop_first() =~= table@.skip(k as int + 1));
        }
        k = k + 1;
    }
    AssetLoadState::NotLoaded
}

/// Keeps the assets of `ids` that have not loaded yet, and collects those
/// that failed.
fn split_pending(ids: &Vec<u64>, table: &Vec<(u64, AssetLoadState)>) -> (r: (Vec<u64>, Vec<u64>))
    ensures
        r.0@ == spec_still_pending(ids@, table@),
        r.1@ == spec_failed(ids@, table@),
{
    let mut pending: Vec<u64> = Vec::new();
    let mut failed: Vec<u64> = Vec::new();
    let mut k: usize = 0;
    while k < ids.len()
        invariant
            0 <= k <= ids.len(),
            pending@ == spec_still_pending(ids@.take(k as int), table@),
            failed@ == spec_failed(ids@.take(k as int), table@),
        decreases ids.len() - k,
    {
        let id = ids[k];
        let state = state_of(table, id);
        proof {
            assert(ids@.take(k as int + 1).drop_last() =~= ids@.take(k as int));
            assert(ids@.take(k as int + 1).last() == id);
        }
        if state != AssetLoadState::Loaded {
            pending.push(id);
        }
        if state == AssetLoadState::Failed {
            failed.push(id);
        }
        k = k + 1;
    }
    proof {
        assert(ids@.take(ids@.len() as int) =~= ids@);
    }
    (pending, failed)
}

/// The result of checking one mod folder, as a plain value.
pub open spec fn spec_folder_check(
    folder_state: AssetLoadState,
    folder_files: Option<Seq<u64>>,
    pending: Option<Seq<u64>>,
    table: Seq<(u64, AssetLoadState)>,
) -> (Result<bool, Seq<u64>>, Option<Seq<u64>>) {
    // The error of a folder that is missing or failed is told apart by the
    // callers; here both leave `pending` as it was.
    match folder_files {
        None => (Ok(false), pending),
        Some(files) => {
            let ids = match pending {
                Some(p) => p,
                None => files,
            };
            let still = spec_still_pending(ids, table);
            let failed = spec_failed(ids, table);
            if failed.len() > 0 {
                (Err(failed), Some(still))
            } else {
                (Ok(still.len() == 0), Some(still))
            }
        },
    }
}

/// Checks whether a mod folder and all of its files have loaded.
///
/// `folder_files` holds the files of the folder once the folder asset is
/// there. `pending` holds the files still awaited from an earlier check;
/// on the first check it is filled with the folder's files. Files that have
/// loaded are dropped from it, and the rest is kept for the next check.
/// `table` gives the load state of each asset the asset server knows.
pub fn is_folder_loaded(
    folder_state: AssetLoadState,
    folder_files: Option<&Vec<u64>>,
    pending: &mut Option<Vec<u64>>,
    table: &Vec<(u64, AssetLoadState)>,
) -> (r: Result<bool, FolderLoadError>)
    ensures
        folder_state == AssetLoadState::NotLoaded ==> r == Err::<bool, FolderLoadError>(
            FolderLoadError::FolderMissing,
        ) && *final(pending) == *old(pending),
        folder_state == AssetLoadState::Failed ==> r == Err::<bool, FolderLoadError>(
            FolderLoadError::FolderFailed,
        ) && *final(pending) == *old(pending),
        folder_state != AssetLoadState::NotLoaded && folder_state != AssetLoadState::Failed ==> {
            let expected = spec_folder_check(
                folder_state,
                match folder_files {
                    Some(f) => Some(f@),
                    None => None,
                },
                match *old(pending) {
                    Some(p) => Some(p@),
                    None => None,
                },
                table@,
            );
            &&& match *final(pending) {
                Some(p) => expected.1 == Some(p@),
                None => expected.1 is None,
            }
            &&& match expected.0 {
                Ok(b) => r == Ok::<bool, FolderLoadError>(b),
                Err(failed) => (r matches Err(FolderLoadError::FilesFailed(f)) && f@ == failed),
            }
        },
{
    match folder_state {
        AssetLoadState::NotLoaded => {
            return Err(FolderLoadError::FolderMissing);
        },
        AssetLoadState::Failed => {
            return Err(FolderLoadError::FolderFailed);
        },
        _ => {},
    }
    let files = match folder_files {
        Some(files) => files,
        None => {
            return Ok(false);
        },
    };
    let current: Vec<u64> = match pending.take() {
        Some(p) => p,
        None => files.clone(),
    };
    let (still, failed) = split_pending(&current, table);
    let done = still.len() == 0;
    *pending = Some(still);
    if failed.len() > 0 {
        Err(FolderLoadError::FilesFailed(failed))
    } else {
        Ok(done)
    }
}

/// What the mod loader does after checking all mod folders in a frame.
#[derive(Debug, Clone, PartialEq, Eq)]
pub enum LoaderStep {
    /// Some folders are still loading: check again next frame
    Wait,
    /// These folders, by their position, failed to load
    Failed(Vec<usize>),
    /// Every folder has loaded: build the mod
    Construct,
}

/// The folders whose check failed, by position.
pub open spec fn spec_failed_folders(checks: Seq<Result<bool, FolderLoadError>>) -> Seq<usize>
    decreases checks.len(),
{
    if checks.len() == 0 {
        Seq::empty()
    } else {
        let rest = spec_failed_folders(checks.drop_last());
        if checks.last() is Err {
            rest.push((checks.len() - 1) as usize)
        } else {
            rest
        }
    }
}

/// The failed folders are exactly the positions whose check is an error,
/// in increasing order.
pub proof fn law_failed_folders(checks: Seq<Result<bool, FolderLoadError>>, i: usize)
    requires
        checks.len() <= usize::MAX,
    ensures
        spec_failed_folders(checks).contains(i) <==> (i < checks.len() && checks[i as int] is Err),
        forall|k: int| 0 <= k < spec_failed_folders(checks).len() ==> #[trigger] spec_failed_folders(checks)[k] < checks.len(),
        forall|k: int, l: int| 0 <= k < l < spec_failed_folders(checks).len() ==> #[trigger] spec_failed_folders(checks)[k] < #[trigger] spec_failed_folders(checks)[l],
    decreases checks.len(),
{
    if checks.len() > 0 {
        let rest = checks.drop_last();
        law_failed_folders(rest, i);
        let f = spec_failed_folders(rest);
        let n = (checks.len() - 1) as usize;
        if i < rest.len() {
            assert(rest[i as int] == checks[i as int]);
        }
        if checks.last() is Err {
            let g = f.push(n);
            assert(g.contains(i) <==> (f.contains(i) || n == i)) by {
                if g.contains(i) {
                    let k = choose|k: int| 0 <= k < g.len() && g[k] == i;
                    if k < f.len() {
                        assert(f[k] == i);
                    }
                }
                if f.contains(i) {
                    let k = choose|k: int| 0 <= k < f.len() && f[k] == i;
                    assert(g[k] == i);
                }
                assert(g[f.len() as int] == n);
            }
            assert forall|k: int| 0 <= k < g.len() implies #[trigger] g[k] < checks.len() by {
                if k < f.len() {
                    assert(g[k] == f[k]);
                }
            }
            assert forall|k: int, l: int| 0 <= k < l < g.len() implies #[trigger] g[k] < #[trigger] g[l] by {
                assert(g[k] == f[k]);
                if l < f.len() {
                    assert(g[l] == f[l]);
                }
            }
        }
    }
}

/// Decides the mod loader's step from the checks of all mod folders: any
/// failed folder fails the load, else the mod is built once every folder
/// has loaded.
pub fn loader_step(checks: &Vec<Result<bool, FolderLoadError>>) -> (r: LoaderStep)
    ensures
        spec_failed_folders(checks@).len() > 0 ==> (r matches LoaderStep::Failed(f) && f@
            == spec_failed_folders(checks@)),
        spec_failed_folders(checks@).len() == 0 ==> (r == LoaderStep::Construct <==> forall|i: int|
            0 <= i < checks@.len() ==> checks@[i] == Ok::<bool, FolderLoadError>(true)),
        spec_failed_folders(checks@).len() == 0 ==> (r == LoaderStep::Construct || r
            == LoaderStep::Wait),
{
    let mut failed: Vec<usize> = Vec::new();
    let mut all_loaded = true;
    let mut k: usize = 0;
    while k < checks.len()
        invariant
            0 <= k <= checks.len(),
            failed@ == spec_failed_folders(checks@.take(k as int)),
            all_loaded <==> forall|i: int| 0 <= i < k ==> checks@[i] is Err || checks@[i] == Ok::<bool, FolderLoadError>(true),
        decreases checks.len() - k,
    {
        proof {
            assert(checks@.take(k as int + 1).drop_last() =~= checks@.take(k as int));
            assert(checks@.take(k as int + 1).last() == checks@[k as int]);
        }
        match &checks[k] {
            Ok(ready) => {
                if !*ready {
                    all_loaded = false;
                }
            },
            Err(_) => {
                failed.push(k);
            },
        }
        k = k + 1;
    }
    proof {
        assert(checks@.take(checks@.len() as int) =~= checks@);
        if failed@.len() == 0 {
            lemma_no_failed_folders(checks@);
        }
    }
    if failed.len() > 0 {
        LoaderStep::Failed(failed)
    } else if all_loaded {
        LoaderStep::Construct
    } else {
        LoaderStep::Wait
    }
}

proof fn lemma_no_failed_folders(checks: Seq<Result<bool, FolderLoadError>>)
    requires
        spec_failed_folders(checks).len() == 0,
    ensures
        forall|i: int| 0 <= i < checks.len() ==> checks[i] is Ok,
    decreases checks.len(),
{
    if checks.len() > 0 {
        let rest = checks.drop_last();
        assert(checks.last() is Ok);
        lemma_no_failed_folders(rest);
        assert forall|i: int| 0 <= i < checks.len() implies checks[i] is Ok by {
            if i < checks.len() - 1 {
                assert(checks[i] == rest[i]);
            }
        }
    }
}

impl LoaderStep {
    /// The mod state the loader moves to: `Pending` once loading has ended,
    /// whether it failed or a mod is to be built.
    pub fn next_mod_state(&self) -> (r: Option<ModState>)
        ensures
            *self == LoaderStep::Wait ==> r is None,
            *self != LoaderStep::Wait ==> r == Some(ModState::Pending),
    {
        match self {
            LoaderStep::Wait => None,
            _ => Some(ModState::Pending),
        }
    }
}

/// The state changes at the end of an initialization frame.
#[derive(Debug, Clone, Copy, PartialEq, Eq, Structural)]
pub struct InitTransition {
    /// The game state to move to, if any
    pub game_state: Option<GameState>,
    /// The mod state to move to, if any
    pub mod_state: Option<ModState>,
    /// Whether the last loaded mod is to be installed
    pub install_loaded_mod: bool,
}

/// Decides an initialization frame from the mod loading errors and the
/// loaded mods received in it: an error moves the game to the error state
/// and drops the mod; else a loaded mod starts the gameplay.
pub fn init_tick(error_count: usize, loaded_count: usize) -> (r: InitTransition)
    ensures
        error_count > 0 ==> r == (InitTransition {
            game_state: Some(GameState::Error),
            mod_state: Some(ModState::NotLoaded),
            install_loaded_mod: false,
        }),
        error_count == 0 && loaded_count > 0 ==> r == (InitTransition {
            game_state: Some(GameState::Gameplay),
            mod_state: Some(ModState::Ready),
            install_loaded_mod: true,
        }),
        error_count == 0 && loaded_count == 0 ==> r == (InitTransition {
            game_state: None,
            mod_state: None,
            install_loaded_mod: false,
        }),
{
    if error_count > 0 {
        InitTransition {
            game_state: Some(GameState::Error),
            mod_state: Some(ModState::NotLoaded),
            install_loaded_mod: false,
        }
    } else if loaded_count > 0 {
        InitTransition {
            game_state: Some(GameState::Gameplay),
            mod_state: Some(ModState::Ready),
            install_loaded_mod: true,
        }
    } else {
        InitTransition { game_state: None, mod_state: None, install_loaded_mod: false }
    }
}

/// The kinds of event the asset server sends about mod assets.
#[derive(Debug, Clone, Copy, PartialEq, Eq, Structural)]
pub enum AssetEventKind {
    Added,
    Modified,
    Removed,
    LoadedWithDependencies,
    Unused,
}

/// An asset was added or changed, and it has a path.
pub open spec fn spec_triggers_reload(event: (AssetEventKind, bool)) -> bool {
    (event.0 == AssetEventKind::Added || event.0 == AssetEventKind::Modified) && event.1
}

/// Whether the asset events of a frame ask for a reload: some asset that
/// has a path was added or modified. Each event is its kind and whether
/// the asset has a path.
pub fn wants_reload(events: &Vec<(AssetEventKind, bool)>) -> (r: bool)
    ensures
        r <==> exists|i: int| 0 <= i < events@.len() && spec_triggers_reload(#[trigger] events@[i]),
{
    let mut k: usize = 0;
    while k < events.len()
        invariant
            0 <= k <= events.len(),
            forall|i: int| 0 <= i < k ==> !spec_triggers_reload(#[trigger] events@[i]),
        decreases events.len() - k,
    {
        let (kind, has_path) = events[k];
        if (kind == AssetEventKind::Added || kind == AssetEventKind::Modified) && has_path {
            assert(spec_triggers_reload(events@[k as int]));
            return true;
        }
        k = k + 1;
    }
    false
}

/// What to do with the hot reload timer in a frame.
#[derive(Debug, Clone, Copy, PartialEq, Eq, Structural)]
pub enum HotReloadAction {
    /// Start the one second timer anew
    StartTimer,
    /// Advance the timer, ask for a reload if it has just finished, and
    /// drop it
    TickAndDrop,
    /// Leave the timer as it is
    Keep,
}

/// Decides the hot reload timer's fate in a frame: changed files restart
/// it; otherwise, while a window has focus, a running timer is advanced
/// once and dropped.
pub fn hot_reload_action(want_reload: bool, any_window_focused: bool, timer_running: bool) -> (r: HotReloadAction)
    ensures
        want_reload ==> r == HotReloadAction::StartTimer,
        !want_reload && any_window_focused && timer_running ==> r == HotReloadAction::TickAndDrop,
        !want_reload && !(any_window_focused && timer_running) ==> r == HotReloadAction::Keep,
{
    if want_reload {
        HotReloadAction::StartTimer
    } else if any_window_focused && timer_running {
        HotReloadAction::TickAndDrop
    } else {
        HotReloadAction::Keep
    }
}

/// What a hot reload of a loaded mod's data files does.
#[derive(Debug, Clone, Copy, PartialEq, Eq, Structural)]
pub struct DataReload {
    /// The freshly loaded data replaces the old, and textures whose settings
    /// changed are marked
    pub replace_data: bool,
    /// Whether a full reload is wanted afterwards
    pub want_full_reload: bool,
    /// Whether data files were reloaded
    pub data_reloaded: bool,
}

/// Decides a hot reload of a loaded mod's data files. Nothing changes while
/// the asset cache saw no change or the reload delay has not passed. Then
/// the data is loaded again: when its item ids are those of the loaded
/// data, it replaces that data and no full reload is wanted; otherwise the
/// loaded data stays and a full reload is wanted.
pub fn data_reload_step(
    cache_hot_reloaded: bool,
    delay_passed: bool,
    ids_equal: bool,
    want_full_reload: bool,
) -> (r: DataReload)
    ensures
        !(cache_hot_reloaded && delay_passed) ==> r == (DataReload {
            replace_data: false,
            want_full_reload: want_full_reload,
            data_reloaded: false,
        }),
        cache_hot_reloaded && delay_passed ==> r == (DataReload {
            replace_data: ids_equal,
            want_full_reload: !ids_equal,
            data_reloaded: ids_equal,
        }),
{
    if !cache_hot_reloaded || !delay_passed {
        DataReload { replace_data: false, want_full_reload, data_reloaded: false }
    } else if ids_equal {
        DataReload { replace_data: true, want_full_reload: false, data_reloaded: true }
    } else {
        DataReload { replace_data: false, want_full_reload: true, data_reloaded: false }
    }
}

} // verus!
