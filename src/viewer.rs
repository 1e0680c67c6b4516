//! The scene viewer's decisions: following a glTF asset from loading to a spawned, ready
//! scene, setting the view up once it is there, and the light toggles.
use vstd::prelude::*;

verus! {

/// Where a requested scene stands. The asset itself is held by the caller.
#[derive(Clone, Copy, Debug, PartialEq, Eq, Structural)]
pub struct SceneHandle {
    /// Which scene of the file to show.
    pub scene_index: usize,
    /// The spawned instance, once spawned.
    pub instance_id: Option<u64>,
    /// Whether the spawned instance is ready.
    pub is_loaded: bool,
    /// Whether the scene brings a light of its own, or one was added.
    pub has_light: bool,
}

/// What the engine reports on one frame, for the stage the scene is in.
#[derive(Clone, Copy, Debug, PartialEq, Eq, Structural)]
pub enum LoadEvent {
    /// The asset is still loading.
    AssetPending,
    /// The asset has loaded: it holds `scene_count` scenes, and the chosen one, if it
    /// exists, holds a directional or point light when `scene_has_light`.
    AssetReady { scene_count: usize, scene_has_light: bool },
    /// The chosen scene was spawned as `instance`.
    Spawned { instance: u64 },
    /// Whether the spawned instance is ready.
    InstanceChecked { ready: bool },
}

/// What the caller does next.
#[derive(Clone, Copy, Debug, PartialEq, Eq, Structural)]
pub enum LoadAction {
    Nothing,
    /// Spawn scene `scene_index`; `several` tells that the file has more than one scene to
    /// choose from.
    SpawnScene { scene_index: usize, several: bool },
    /// The file has no scene `scene_index`: a fatal error.
    SceneMissing { scene_index: usize },
    /// The instance became ready on this frame.
    Loaded,
}

/// What the post-load setup does on one frame.
#[derive(Clone, Copy, Debug, PartialEq, Eq, Structural)]
pub enum SetupAction {
    /// Nothing to do: the scene is not ready, or the setup was done.
    Nothing,
    /// Some mesh has no bounds yet: try again on a later frame.
    Defer,
    /// Place the camera and the grid, and a directional light when `spawn_light`.
    Setup { spawn_light: bool },
}

impl SceneHandle {
    /// A spawned instance is there before it can be ready.
    pub open spec fn wf(self) -> bool {
        self.is_loaded ==> self.instance_id is Some
    }

    pub open spec fn load_step_spec(self, event: LoadEvent) -> (SceneHandle, LoadAction) {
        match self.instance_id {
            None => match event {
                LoadEvent::AssetReady { scene_count, scene_has_light } => {
                    if self.scene_index < scene_count {
                        (
                            SceneHandle { has_light: scene_has_light, ..self },
                            LoadAction::SpawnScene {
                                scene_index: self.scene_index,
                                several: scene_count > 1,
                            },
                        )
                    } else {
                        (self, LoadAction::SceneMissing { scene_index: self.scene_index })
                    }
                },
                LoadEvent::Spawned { instance } => (
                    SceneHandle { instance_id: Some(instance), ..self },
                    LoadAction::Nothing,
                ),
                _ => (self, LoadAction::Nothing),
            },
            Some(_) => {
                if !self.is_loaded && event == (LoadEvent::InstanceChecked { ready: true }) {
                    (SceneHandle { is_loaded: true, ..self }, LoadAction::Loaded)
                } else {
                    (self, LoadAction::Nothing)
                }
            },
        }
    }

    pub open spec fn setup_spec(self, done: bool, all_bounded: bool) -> (SceneHandle, bool, SetupAction) {
        if !self.is_loaded || done {
            (self, done, SetupAction::Nothing)
        } else if !all_bounded {
            (self, done, SetupAction::Defer)
        } else {
            (
                SceneHandle { has_light: true, ..self },
                true,
                SetupAction::Setup { spawn_light: !self.has_light },
            )
        }
    }

    /// A handle for scene `scene_index` of an asset not yet loaded.
    pub fn new(scene_index: usize) -> (r: SceneHandle)
        ensures
            r == (SceneHandle { scene_index, instance_id: None, is_loaded: false, has_light: false }),
            r.wf(),
    {
        SceneHandle { scene_index, instance_id: None, is_loaded: false, has_light: false }
    }

    /// One frame of loading: before the spawn, wait for the asset, then have the chosen scene
    /// spawned, noting whether it brings a light; after the spawn, wait until the instance is
    /// ready.
    pub fn scene_load_check(&mut self, event: LoadEvent) -> (r: LoadAction)
        requires
            old(self).wf(),
        ensures
            (*final(self), r) == old(self).load_step_spec(event),
            final(self).wf(),
    {
        match self.instance_id {
            None => match event {
                LoadEvent::AssetReady { scene_count, scene_has_light } => {
                    if self.scene_index < scene_count {
                        self.has_light = scene_has_light;
                        LoadAction::SpawnScene {
                            scene_index: self.scene_index,
                            several: scene_count > 1,
                        }
                    } else {
                        LoadAction::SceneMissing { scene_index: self.scene_index }
                    }
                },
                LoadEvent::Spawned { instance } => {
                    self.instance_id = Some(instance);
                    LoadAction::Nothing
                },
                _ => LoadAction::Nothing,
            },
            Some(_) => {
                let ready = match event {
                    LoadEvent::InstanceChecked { ready } => ready,
                    _ => false,
                };
                if !self.is_loaded && ready {
                    self.is_loaded = true;
                    LoadAction::Loaded
                } else {
                    LoadAction::Nothing
                }
            },
        }
    }

    /// Sets the view up once the scene is ready and every mesh has its bounds; `done`
    /// records that it happened, so that it happens once.
    pub fn setup_scene_after_load(&mut self, done: &mut bool, all_bounded: bool) -> (r:
        SetupAction)
        requires
            old(self).wf(),
        ensures
            (*final(self), *final(done), r) == old(self).setup_spec(*old(done), all_bounded),
            final(self).wf(),
    {
        if !self.is_loaded || *done {
            SetupAction::Nothing
        } else if !all_bounded {
            SetupAction::Defer
        } else {
            *done = true;
            let spawn_light = !self.has_light;
            self.has_light = true;
            SetupAction::Setup { spawn_light }
        }
    }
}

/// The setup runs at most once: after it ran, no later frame sets anything up again.
pub proof fn lemma_setup_once(h: SceneHandle, done: bool, all_bounded: bool, later: bool)
    requires
        h.setup_spec(done, all_bounded).2 is Setup,
    ensures
        ({
            let (h2, done2, _) = h.setup_spec(done, all_bounded);
            h2.setup_spec(done2, later).2 == SetupAction::Nothing
        }),
{
}

/// One frame of the light keys: each light's shadows flip when `toggle_shadows`, and the
/// light animation flips when `toggle_animation`.
pub fn update_lights(
    animate: &mut bool,
    shadows: &mut Vec<bool>,
    toggle_shadows: bool,
    toggle_animation: bool,
)
    ensures
        *final(animate) == (*old(animate) != toggle_animation),
        final(shadows)@.len() == old(shadows)@.len(),
        forall|i: int|
            0 <= i < old(shadows)@.len() ==> #[trigger] final(shadows)@[i] == (old(shadows)@[i]
                != toggle_shadows),
{
    let n = shadows.len();
    let mut i: usize = 0;
    while i < n
        invariant
            n == old(shadows)@.len(),
            shadows@.len() == n,
            0 <= i <= n,
            forall|j: int| 0 <= j < i ==> #[trigger] shadows@[j] == (old(shadows)@[j] != toggle_shadows),
            forall|j: int| i <= j < n ==> #[trigger] shadows@[j] == old(shadows)@[j],
        decreases n - i,
    {
        if toggle_shadows {
            let s = shadows[i];
            shadows.set(i, !s);
        }
        i = i + 1;
    }
    if toggle_animation {
        *animate = !*animate;
    }
}

} // verus!
