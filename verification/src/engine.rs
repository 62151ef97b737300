//! The update cycle as an explicit state machine.
//!
//! One background worker runs the whole cycle: launcher self-update check,
//! optional self-replacement and restart, game update check, patch chain or
//! reinstall, launch.  The decisions live here, verified; the surrounding
//! program performs each requested [`Action`] — a fetch, a download, a
//! swap, a launch — and reports the outcome back as an [`Event`].
//!
//! Every failure except the final launch degrades silently: a failed
//! catalog fetch counts as "up to date", a failed self-update keeps the old
//! launcher for this session, a failed patch step falls back to a full
//! reinstall, and a failed reinstall still launches whatever is installed.

use crate::decision::{decide, up_to_date};
use crate::model::{find_asset_index, first_match, opt_view, spec_full_suffix, Asset, Release};
use crate::planner::{plan_of, plan_update, PatchPlan};
use vstd::prelude::*;

verus! {

/// Where the update cycle stands.
pub enum Phase {
    /// Waiting for the launcher's own release catalog.
    SelfCheck,
    /// A new launcher binary is being downloaded and swapped in.
    SelfUpdating,
    /// Waiting for the game's release catalog and installed identity.
    GameCheck,
    /// Applying the planned patch chain, one step at a time: `next` is the
    /// position of the step in flight, `fallback` the newest full artifact
    /// to reinstall should a step fail.
    Patching { steps: Vec<Asset>, next: usize, fallback: Option<Asset> },
    /// Downloading the newest full artifact over the installed file.
    Reinstalling,
    /// The launcher was replaced; a restart is pending.
    Restarting,
    /// All update work is over; the game is to be launched.
    Launching,
}

/// What the surrounding program is asked to do next.
pub enum Action {
    /// Fetch the launcher's release catalog.
    FetchSelfCatalog,
    /// Download `asset` and atomically replace the running executable.
    ReplaceSelf { asset: Asset },
    /// Spawn the replaced executable with the flag that suppresses the
    /// next self-update, then exit this process.
    RestartSkippingSelfUpdate,
    /// Fetch the game's release catalog and compute the installed identity.
    FetchGameCatalog,
    /// Download patch `asset` — step `index` of `total`, one-based — and
    /// apply it to the installed file.
    ApplyPatchStep { asset: Asset, index: usize, total: usize },
    /// Download `asset` directly over the installed file.
    Reinstall { asset: Asset },
    /// Launch the installed executable.
    Launch,
}

/// What the outside world reports back to the engine.
pub enum Event {
    /// The launcher catalog arrived, or nothing when the fetch failed.
    SelfCatalog { releases: Option<Vec<Release>> },
    /// The self-replacement finished, successfully or not.
    SelfReplaceFinished { ok: bool },
    /// The game catalog arrived (nothing on a failed fetch), with the
    /// installed file's identity (absent on a first install).
    GameCatalog { releases: Option<Vec<Release>>, installed: Option<String> },
    /// One patch step — download, decompress, apply, overwrite — finished.
    PatchStepFinished { ok: bool },
    /// The reinstall download finished, successfully or not.
    ReinstallFinished { ok: bool },
    /// The pending restart could not even be attempted; the session goes
    /// on with the old binary.
    RestartFailed,
}

/// The update cycle's state.
pub struct Engine {
    /// Whether the game update phase runs at all.
    pub game_update_enabled: bool,
    /// The running launcher build's version tag.
    pub running_version: String,
    /// Where the cycle stands.
    pub phase: Phase,
}

/// What follows the launcher-update part of the cycle: the game check when
/// it is enabled, otherwise the launch itself.
pub open spec fn after_self_rel(game_update_enabled: bool, post: Engine, act: Option<
    Action,
>) -> bool {
    if game_update_enabled {
        post.phase is GameCheck && act == Some(Action::FetchGameCatalog)
    } else {
        post.phase is Launching && act == Some(Action::Launch)
    }
}

/// The transition relation of the update cycle: from `pre`, on `ev`, the
/// engine moves to `post` and asks the outside world for `act`.  An event
/// that does not belong to the current phase changes nothing.
pub open spec fn step_rel(pre: Engine, ev: Event, post: Engine, act: Option<Action>) -> bool {
    &&& post.game_update_enabled == pre.game_update_enabled
    &&& post.running_version == pre.running_version
    &&& match pre.phase {
        Phase::SelfCheck => match ev {
            Event::SelfCatalog { releases: None } => after_self_rel(
                pre.game_update_enabled,
                post,
                act,
            ),
            Event::SelfCatalog { releases: Some(rels) } => {
                if up_to_date(rels@, true, Some(pre.running_version@)) {
                    after_self_rel(pre.game_update_enabled, post, act)
                } else {
                    match first_match(rels@[0].assets@, spec_full_suffix()) {
                        Some(a) => post.phase is SelfUpdating && act == Some(
                            Action::ReplaceSelf { asset: a },
                        ),
                        None => after_self_rel(pre.game_update_enabled, post, act),
                    }
                }
            },
            _ => post == pre && act is None,
        },
        Phase::SelfUpdating => match ev {
            Event::SelfReplaceFinished { ok } => {
                if ok {
                    post.phase is Restarting && act == Some(Action::RestartSkippingSelfUpdate)
                } else {
                    after_self_rel(pre.game_update_enabled, post, act)
                }
            },
            _ => post == pre && act is None,
        },
        Phase::GameCheck => match ev {
            Event::GameCatalog { releases: None, .. } => post.phase is Launching && act == Some(
                Action::Launch,
            ),
            Event::GameCatalog { releases: Some(rels), installed } => {
                if up_to_date(rels@, false, opt_view(installed)) {
                    post.phase is Launching && act == Some(Action::Launch)
                } else {
                    match plan_of(rels@, opt_view(installed)) {
                        Some(chain) => {
                            if chain.len() == 0 {
                                post.phase is Launching && act == Some(Action::Launch)
                            } else {
                                &&& post.phase matches Phase::Patching { steps, next, fallback }
                                    && steps@ == chain && next == 0 && fallback == first_match(
                                    rels@[0].assets@,
                                    spec_full_suffix(),
                                )
                                &&& act matches Some(
                                    Action::ApplyPatchStep { asset, index, total },
                                ) && asset == chain[0] && index == 1 && total == chain.len()
                            }
                        },
                        None => match first_match(rels@[0].assets@, spec_full_suffix()) {
                            Some(a) => post.phase is Reinstalling && act == Some(
                                Action::Reinstall { asset: a },
                            ),
                            None => post.phase is Launching && act == Some(Action::Launch),
                        },
                    }
                }
            },
            _ => post == pre && act is None,
        },
        Phase::Patching { steps, next, fallback } => match ev {
            Event::PatchStepFinished { ok } => {
                if ok {
                    if next + 1 < steps@.len() {
                        &&& post.phase matches Phase::Patching {
                            steps: s2,
                            next: n2,
                            fallback: f2,
                        } && s2 == steps && n2 == next + 1 && f2 == fallback
                        &&& act matches Some(Action::ApplyPatchStep { asset, index, total })
                            && asset == steps@[next + 1] && index == next + 2 && total
                            == steps@.len()
                    } else {
                        post.phase is Launching && act == Some(Action::Launch)
                    }
                } else {
                    match fallback {
                        Some(a) => post.phase is Reinstalling && act == Some(
                            Action::Reinstall { asset: a },
                        ),
                        None => post.phase is Launching && act == Some(Action::Launch),
                    }
                }
            },
            _ => post == pre && act is None,
        },
        Phase::Reinstalling => match ev {
            Event::ReinstallFinished { .. } => post.phase is Launching && act == Some(
                Action::Launch,
            ),
            _ => post == pre && act is None,
        },
        Phase::Restarting => match ev {
            Event::RestartFailed => after_self_rel(pre.game_update_enabled, post, act),
            _ => post == pre && act is None,
        },
        Phase::Launching => post == pre && act is None,
    }
}

/// The engine and first action that begin a cycle.
pub open spec fn start_rel(
    self_update_enabled: bool,
    game_update_enabled: bool,
    e: Engine,
    act: Action,
) -> bool {
    &&& e.game_update_enabled == game_update_enabled
    &&& if self_update_enabled {
        e.phase is SelfCheck && act == Action::FetchSelfCatalog
    } else if game_update_enabled {
        e.phase is GameCheck && act == Action::FetchGameCatalog
    } else {
        e.phase is Launching && act == Action::Launch
    }
}

impl Engine {
    /// Begin an update cycle for a launcher running `running_version`.
    pub fn start(self_update_enabled: bool, game_update_enabled: bool, running_version: String) -> (r: (
        Engine,
        Action,
    ))
        ensures
            start_rel(self_update_enabled, game_update_enabled, r.0, r.1),
            r.0.running_version == running_version,
    {
        if self_update_enabled {
            (
                Engine { game_update_enabled, running_version, phase: Phase::SelfCheck },
                Action::FetchSelfCatalog,
            )
        } else if game_update_enabled {
            (
                Engine { game_update_enabled, running_version, phase: Phase::GameCheck },
                Action::FetchGameCatalog,
            )
        } else {
            (
                Engine { game_update_enabled, running_version, phase: Phase::Launching },
                Action::Launch,
            )
        }
    }

    /// Feed one event to the engine; it answers with the next action, or
    /// with nothing when the event does not belong to the current phase.
    pub fn step(self, event: Event) -> (r: (Engine, Option<Action>))
        ensures
            step_rel(self, event, r.0, r.1),
    {
        let Engine { game_update_enabled, running_version, phase } = self;
        match phase {
            Phase::SelfCheck => match event {
                Event::SelfCatalog { releases } => match releases {
                    None => Self::after_self(game_update_enabled, running_version),
                    Some(rels) => {
                        let installed = Some(running_version.clone());
                        if decide(&rels, true, &installed) {
                            Self::after_self(game_update_enabled, running_version)
                        } else {
                            match find_asset_index(&rels[0].assets, ".exe") {
                                Some(i) => {
                                    let asset = rels[0].assets[i].clone();
                                    (
                                        Engine {
                                            game_update_enabled,
                                            running_version,
                                            phase: Phase::SelfUpdating,
                                        },
                                        Some(Action::ReplaceSelf { asset }),
                                    )
                                },
                                None => Self::after_self(game_update_enabled, running_version),
                            }
                        }
                    },
                },
                _ => (
                    Engine { game_update_enabled, running_version, phase: Phase::SelfCheck },
                    None,
                ),
            },
            Phase::SelfUpdating => match event {
                Event::SelfReplaceFinished { ok } => {
                    if ok {
                        (
                            Engine { game_update_enabled, running_version, phase: Phase::Restarting },
                            Some(Action::RestartSkippingSelfUpdate),
                        )
                    } else {
                        Self::after_self(game_update_enabled, running_version)
                    }
                },
                _ => (
                    Engine { game_update_enabled, running_version, phase: Phase::SelfUpdating },
                    None,
                ),
            },
            Phase::GameCheck => match event {
                Event::GameCatalog { releases, installed } => match releases {
                    None => (
                        Engine { game_update_enabled, running_version, phase: Phase::Launching },
                        Some(Action::Launch),
                    ),
                    Some(rels) => {
                        if decide(&rels, false, &installed) {
                            (
                                Engine {
                                    game_update_enabled,
                                    running_version,
                                    phase: Phase::Launching,
                                },
                                Some(Action::Launch),
                            )
                        } else {
                            match plan_update(&rels, &installed) {
                                PatchPlan::Patches(steps) => {
                                    if steps.len() == 0 {
                                        (
                                            Engine {
                                                game_update_enabled,
                                                running_version,
                                                phase: Phase::Launching,
                                            },
                                            Some(Action::Launch),
                                        )
                                    } else {
                                        let fallback = match find_asset_index(
                                            &rels[0].assets,
                                            ".exe",
                                        ) {
                                            Some(i) => Some(rels[0].assets[i].clone()),
                                            None => None,
                                        };
                                        let asset = steps[0].clone();
                                        let total = steps.len();
                                        (
                                            Engine {
                                                game_update_enabled,
                                                running_version,
                                                phase: Phase::Patching {
                                                    steps,
                                                    next: 0,
                                                    fallback,
                                                },
                                            },
                                            Some(Action::ApplyPatchStep { asset, index: 1, total }),
                                        )
                                    }
                                },
                                PatchPlan::Reinstall => match find_asset_index(
                                    &rels[0].assets,
                                    ".exe",
                                ) {
                                    Some(i) => (
                                        Engine {
                                            game_update_enabled,
                                            running_version,
                                            phase: Phase::Reinstalling,
                                        },
                                        Some(Action::Reinstall { asset: rels[0].assets[i].clone() }),
                                    ),
                                    None => (
                                        Engine {
                                            game_update_enabled,
                                            running_version,
                                            phase: Phase::Launching,
                                        },
                                        Some(Action::Launch),
                                    ),
                                },
                            }
                        }
                    },
                },
                _ => (
                    Engine { game_update_enabled, running_version, phase: Phase::GameCheck },
                    None,
                ),
            },
            Phase::Patching { steps, next, fallback } => match event {
                Event::PatchStepFinished { ok } => {
                    if ok {
                        if next < steps.len() && next + 1 < steps.len() {
                            let asset = steps[next + 1].clone();
                            let total = steps.len();
                            let index = next + 2;
                            (
                                Engine {
                                    game_update_enabled,
                                    running_version,
                                    phase: Phase::Patching { steps, next: next + 1, fallback },
                                },
                                Some(Action::ApplyPatchStep { asset, index, total }),
                            )
                        } else {
                            (
                                Engine {
                                    game_update_enabled,
                                    running_version,
                                    phase: Phase::Launching,
                                },
                                Some(Action::Launch),
                            )
                        }
                    } else {
                        match fallback {
                            Some(a) => (
                                Engine {
                                    game_update_enabled,
                                    running_version,
                                    phase: Phase::Reinstalling,
                                },
                                Some(Action::Reinstall { asset: a }),
                            ),
                            None => (
                                Engine {
                                    game_update_enabled,
                                    running_version,
                                    phase: Phase::Launching,
                                },
                                Some(Action::Launch),
                            ),
                        }
                    }
                },
                _ => (
                    Engine {
                        game_update_enabled,
                        running_version,
                        phase: Phase::Patching { steps, next, fallback },
                    },
                    None,
                ),
            },
            Phase::Reinstalling => match event {
                Event::ReinstallFinished { ok: _ } => (
                    Engine { game_update_enabled, running_version, phase: Phase::Launching },
                    Some(Action::Launch),
                ),
                _ => (
                    Engine { game_update_enabled, running_version, phase: Phase::Reinstalling },
                    None,
                ),
            },
            Phase::Restarting => match event {
                Event::RestartFailed => Self::after_self(game_update_enabled, running_version),
                _ => (
                    Engine { game_update_enabled, running_version, phase: Phase::Restarting },
                    None,
                ),
            },
            Phase::Launching => (
                Engine { game_update_enabled, running_version, phase: Phase::Launching },
                None,
            ),
        }
    }

    /// Move past the launcher-update part of the cycle: on to the game
    /// check when it is enabled, otherwise straight to the launch.
    fn after_self(game_update_enabled: bool, running_version: String) -> (r: (
        Engine,
        Option<Action>,
    ))
        ensures
            after_self_rel(game_update_enabled, r.0, r.1),
            r.0.game_update_enabled == game_update_enabled,
            r.0.running_version == running_version,
    {
        if game_update_enabled {
            (
                Engine { game_update_enabled, running_version, phase: Phase::GameCheck },
                Some(Action::FetchGameCatalog),
            )
        } else {
            (
                Engine { game_update_enabled, running_version, phase: Phase::Launching },
                Some(Action::Launch),
            )
        }
    }
}

/// A catalog fetch failure never prevents the launch: when the game
/// catalog cannot be fetched the engine launches the installed executable
/// at once, and when the launcher catalog cannot be fetched the cycle goes
/// on to the game phase — or straight to the launch — instead of stopping.
pub proof fn lemma_catalog_failure_never_blocks_launch(
    pre: Engine,
    ev: Event,
    post: Engine,
    act: Option<Action>,
)
    requires
        step_rel(pre, ev, post, act),
    ensures
        (pre.phase is GameCheck && ev matches Event::GameCatalog { releases: None, .. }) ==> (
        post.phase is Launching && act == Some(Action::Launch)),
        (pre.phase is SelfCheck && ev matches Event::SelfCatalog { releases: None }) ==> ((
        post.phase is GameCheck && act == Some(Action::FetchGameCatalog)) || (
        post.phase is Launching && act == Some(Action::Launch))),
{
}

} // verus!
