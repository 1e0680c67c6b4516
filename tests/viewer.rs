use pendulum_bench::viewer::{update_lights, LoadAction, LoadEvent, SceneHandle, SetupAction};

#[test]
fn new_handle_is_unloaded() {
    let h = SceneHandle::new(2);
    assert_eq!(h.scene_index, 2);
    assert_eq!(h.instance_id, None);
    assert!(!h.is_loaded);
    assert!(!h.has_light);
}

#[test]
fn load_walks_from_asset_to_ready_instance() {
    let mut h = SceneHandle::new(1);
    assert_eq!(h.scene_load_check(LoadEvent::AssetPending), LoadAction::Nothing);
    assert_eq!(
        h.scene_load_check(LoadEvent::AssetReady { scene_count: 3, scene_has_light: true }),
        LoadAction::SpawnScene { scene_index: 1, several: true }
    );
    assert!(h.has_light);
    assert_eq!(h.scene_load_check(LoadEvent::Spawned { instance: 42 }), LoadAction::Nothing);
    assert_eq!(h.instance_id, Some(42));
    assert_eq!(
        h.scene_load_check(LoadEvent::InstanceChecked { ready: false }),
        LoadAction::Nothing
    );
    assert!(!h.is_loaded);
    assert_eq!(h.scene_load_check(LoadEvent::InstanceChecked { ready: true }), LoadAction::Loaded);
    assert!(h.is_loaded);
    assert_eq!(h.scene_load_check(LoadEvent::InstanceChecked { ready: true }), LoadAction::Nothing);
}

#[test]
fn single_scene_is_not_announced_as_several() {
    let mut h = SceneHandle::new(0);
    assert_eq!(
        h.scene_load_check(LoadEvent::AssetReady { scene_count: 1, scene_has_light: false }),
        LoadAction::SpawnScene { scene_index: 0, several: false }
    );
    assert!(!h.has_light);
}

#[test]
fn missing_scene_is_reported() {
    let mut h = SceneHandle::new(3);
    assert_eq!(
        h.scene_load_check(LoadEvent::AssetReady { scene_count: 3, scene_has_light: true }),
        LoadAction::SceneMissing { scene_index: 3 }
    );
    assert_eq!(h, SceneHandle::new(3));
}

fn loaded(has_light: bool) -> SceneHandle {
    SceneHandle { scene_index: 0, instance_id: Some(1), is_loaded: true, has_light }
}

#[test]
fn setup_waits_for_load_and_bounds() {
    let mut h = SceneHandle::new(0);
    let mut done = false;
    assert_eq!(h.setup_scene_after_load(&mut done, true), SetupAction::Nothing);
    let mut h2 = loaded(false);
    assert_eq!(h2.setup_scene_after_load(&mut done, false), SetupAction::Defer);
    assert!(!done);
    assert_eq!(h2.setup_scene_after_load(&mut done, true), SetupAction::Setup { spawn_light: true });
    assert!(done);
    assert!(h2.has_light);
    assert_eq!(h2.setup_scene_after_load(&mut done, true), SetupAction::Nothing);
    h = loaded(true);
    let mut done = false;
    assert_eq!(h.setup_scene_after_load(&mut done, true), SetupAction::Setup { spawn_light: false });
}

#[test]
fn light_toggles() {
    let mut animate = false;
    let mut shadows = vec![true, false];
    update_lights(&mut animate, &mut shadows, true, false);
    assert_eq!(shadows, vec![false, true]);
    assert!(!animate);
    update_lights(&mut animate, &mut shadows, false, true);
    assert_eq!(shadows, vec![false, true]);
    assert!(animate);
    update_lights(&mut animate, &mut shadows, true, true);
    assert_eq!(shadows, vec![true, false]);
    assert!(!animate);
}
