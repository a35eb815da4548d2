//! Load gate: tracks the load status of the required art assets and decides
//! when the session may leave the `Loading` state.
//!
//! Loading and decoding the image files is the asset subsystem's work,
//! done by the host engine. Each tick the host polls that subsystem and
//! records one status per required asset in [`AssetLoading`]; the
//! decision here reads those statuses alone.

use vstd::prelude::*;

use crate::structs::GameState;

verus! {

/// Load status of one asset, as reported by the asset collaborator.
#[derive(Clone, Copy, Debug, PartialEq, Eq, Structural)]
pub enum LoadState {
    Pending,
    Loaded,
    Failed,
}

/// Statuses of all assets the session waits for, one entry per required
/// asset, in the order of [`setup_assets`].
pub struct AssetLoading(pub Vec<LoadState>);

/// Statuses of the four named art assets (base strip, background, obstacle
/// sprite, player sprite) that gate entry into gameplay.
#[derive(Clone, Copy, Debug, PartialEq, Eq, Structural)]
pub struct FlappyAssets {
    pub base: LoadState,
    pub background: LoadState,
    pub pipe: LoadState,
    pub pc: LoadState,
}

/// Whether every status in the group is `Loaded`.
pub open spec fn all_loaded(s: Seq<LoadState>) -> bool {
    forall|i: int| 0 <= i < s.len() ==> s[i] == LoadState::Loaded
}

/// Whether some status in the group is `Failed`.
pub open spec fn any_failed(s: Seq<LoadState>) -> bool {
    exists|i: int| 0 <= i < s.len() && s[i] == LoadState::Failed
}

/// Combined status of a group of assets: `Failed` as soon as one member
/// failed, `Loaded` once every member loaded, `Pending` otherwise.
pub open spec fn spec_group_load_state(s: Seq<LoadState>) -> LoadState {
    if any_failed(s) {
        LoadState::Failed
    } else if all_loaded(s) {
        LoadState::Loaded
    } else {
        LoadState::Pending
    }
}

/// Starts tracking the required assets: every status begins `Pending`.
/// Returns the named statuses and the group they form, in the order
/// base, background, pipe, player.
pub fn setup_assets() -> (r: (FlappyAssets, AssetLoading))
    ensures
        r.0 == (FlappyAssets {
            base: LoadState::Pending,
            background: LoadState::Pending,
            pipe: LoadState::Pending,
            pc: LoadState::Pending,
        }),
        r.1.0@ == seq![
            LoadState::Pending,
            LoadState::Pending,
            LoadState::Pending,
            LoadState::Pending,
        ],
{
    let assets = FlappyAssets {
        base: LoadState::Pending,
        background: LoadState::Pending,
        pipe: LoadState::Pending,
        pc: LoadState::Pending,
    };
    let mut statuses: Vec<LoadState> = Vec::new();
    statuses.push(LoadState::Pending);
    statuses.push(LoadState::Pending);
    statuses.push(LoadState::Pending);
    statuses.push(LoadState::Pending);
    assert(statuses@ =~= seq![
        LoadState::Pending,
        LoadState::Pending,
        LoadState::Pending,
        LoadState::Pending,
    ]);
    (assets, AssetLoading(statuses))
}

/// Combined status of a group of assets; see [`spec_group_load_state`].
pub fn group_load_state(statuses: &Vec<LoadState>) -> (r: LoadState)
    ensures
        r == spec_group_load_state(statuses@),
{
    let mut failed = false;
    let mut loaded = true;
    let n = statuses.len();
    let mut i: usize = 0;
    while i < n
        invariant
            n == statuses@.len(),
            0 <= i <= n,
            failed == any_failed(statuses@.take(i as int)),
            loaded == all_loaded(statuses@.take(i as int)),
        decreases n - i,
    {
        let s = statuses[i];
        if s == LoadState::Failed {
            failed = true;
        }
        if s != LoadState::Loaded {
            loaded = false;
        }
        assert(statuses@.take(i + 1 as int).drop_last() =~= statuses@.take(i as int));
        assert(statuses@.take(i + 1 as int).last() == statuses@[i as int]);
        i = i + 1;
    }
    assert(statuses@.take(n as int) =~= statuses@);
    if failed {
        LoadState::Failed
    } else if loaded {
        LoadState::Loaded
    } else {
        LoadState::Pending
    }
}

/// Decision of the load gate, given the current asset statuses: the state
/// to move to, if any. A failed asset is terminal for the session; once
/// every asset has loaded, gameplay may begin; otherwise the session stays
/// in `Loading`.
pub open spec fn spec_check_assets_ready(s: Seq<LoadState>) -> Option<GameState> {
    if any_failed(s) {
        Some(GameState::LoadFailed)
    } else if all_loaded(s) {
        Some(GameState::Game)
    } else {
        None
    }
}

/// Runs the load gate over the tracked statuses; returns the state the
/// session must transition to, or `None` to remain in `Loading`.
pub fn check_assets_ready(loading: &AssetLoading) -> (next: Option<GameState>)
    ensures
        next == spec_check_assets_ready(loading.0@),
{
    let group = group_load_state(&loading.0);
    match group {
        LoadState::Failed => Some(GameState::LoadFailed),
        LoadState::Loaded => Some(GameState::Game),
        LoadState::Pending => None,
    }
}

} // verus!
