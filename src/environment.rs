use vstd::prelude::*;

use crate::bus::{dispatch_chain, dispatched, lemma_no_cancel_passes, EventBus, Subscriber};
use crate::events::{Event, EventResult};
use crate::geometry::Point3;
use crate::manager::{
    change_dispatched, default_name, fresh_change, lemma_scene_named_has_name, scene_added, ChangeSceneEvent,
    SceneError, SceneManager,
};
use crate::scene::Scene;

verus! {

/// The scene manager together with the name of the scene on screen.
pub struct EngineEnvironment {
    pub scene_manager: SceneManager,
    pub current_scene: String,
}

/// The relation between an environment before and after `render_scene(name)`
/// returned `r`: the current scene moves to `name` exactly when the dispatch
/// passed.
pub open spec fn scene_rendered(
    before: EngineEnvironment,
    after: EngineEnvironment,
    name: Seq<char>,
    r: Result<EventResult, SceneError>,
) -> bool {
    &&& after.scene_manager == before.scene_manager
    &&& (before.scene_manager.named(name) is None <==> r == Err::<EventResult, SceneError>(
        SceneError::NotFound,
    ))
    &&& after.current_scene@ == match r {
        Ok(res) => if res.is_passed() {
            name
        } else {
            before.current_scene@
        },
        Err(_) => before.current_scene@,
    }
}

impl EngineEnvironment {
    /// The current scene and the default scene are registered.
    pub open spec fn wf(&self) -> bool {
        &&& self.scene_manager.named(self.current_scene@) is Some
        &&& self.scene_manager.named(default_name()) is Some
    }

    pub fn new() -> (r: Self)
        ensures
            r.wf(),
            r.current_scene@ == default_name(),
            r.scene_manager.named(default_name()).unwrap().chunks().len() == 0,
            r.scene_manager.named(default_name()).unwrap().corners().len() == 0,
            r.scene_manager.named(default_name()).unwrap().camera.eye == (Point3 { x: 0, y: 0, z: 0 }),
            r.scene_manager.named(default_name()).unwrap().camera.at == (Point3 { x: 0, y: 0, z: 0 }),
            r.scene_manager.named(default_name()).unwrap().camera.up == (Point3 { x: 0, y: 0, z: 0 }),
            forall|d: Seq<char>| d != default_name() ==> (#[trigger] r.scene_manager.named(d)) is None,
    {
        let scene_manager = SceneManager::new();
        let current_scene = String::from_str("default");
        proof {
            reveal_strlit("default");
            assert(current_scene@ =~= default_name());
        }
        EngineEnvironment { scene_manager, current_scene }
    }

    /// Registers a new, empty scene with a camera at the origin, replacing any
    /// scene of that name.
    pub fn create_scene(&mut self, name: String)
        requires
            old(self).wf(),
        ensures
            final(self).wf(),
            final(self).current_scene@ == old(self).current_scene@,
            final(self).scene_manager.named(name@) is Some,
            final(self).scene_manager.named(name@).unwrap().chunks().len() == 0,
            final(self).scene_manager.named(name@).unwrap().corners().len() == 0,
            final(self).scene_manager.named(name@).unwrap().name@ == name@,
            final(self).scene_manager.named(name@).unwrap().camera.eye == (Point3 { x: 0, y: 0, z: 0 }),
            final(self).scene_manager.named(name@).unwrap().camera.at == (Point3 { x: 0, y: 0, z: 0 }),
            final(self).scene_manager.named(name@).unwrap().camera.up == (Point3 { x: 0, y: 0, z: 0 }),
            forall|d: Seq<char>|
                d != name@ ==> #[trigger] final(self).scene_manager.named(d)
                    == old(self).scene_manager.named(d),
    {
        let scene = Scene::with_name(name);
        let ghost s = scene;
        self.scene_manager.add_scene(scene);
        proof {
            assert(scene_added(old(self).scene_manager, self.scene_manager, s));
            if self.current_scene@ != s.name@ {
                assert(self.scene_manager.named(self.current_scene@) == old(
                    self,
                ).scene_manager.named(self.current_scene@));
            }
        }
    }

    pub fn get_scene(&self, name: String) -> (r: Result<&Scene, SceneError>)
        ensures
            match r {
                Ok(s) => self.scene_manager.named(name@) == Some(*s),
                Err(e) => self.scene_manager.named(name@) is None && e == SceneError::NotFound,
            },
    {
        self.scene_manager.get_scene(name)
    }

    /// The scene on screen.
    pub fn current_scene(&self) -> (r: Result<&Scene, SceneError>)
        ensures
            match r {
                Ok(s) => self.scene_manager.named(self.current_scene@) == Some(*s),
                Err(e) => self.scene_manager.named(self.current_scene@) is None,
            },
            self.wf() ==> r is Ok,
    {
        self.scene_manager.get_scene(self.current_scene.clone())
    }

    /// Asks the subscribers to switch to the scene `name`; the current scene
    /// moves there only if none of them cancels.
    pub fn render_scene<S: Subscriber<ChangeSceneEvent>>(&mut self, name: String, bus: &EventBus<S>) -> (r:
        Result<EventResult, SceneError>)
        requires
            old(self).wf(),
        ensures
            final(self).wf(),
            scene_rendered(*old(self), *final(self), name@, r),
            change_dispatched(bus.subscribers@, name@, r),
            old(self).scene_manager.named(name@) is Some && bus.subscribers@.len() == 0 ==> r
                == Ok::<EventResult, SceneError>(EventResult::EvPassed),
    {
        let result = self.scene_manager.render_scene(name.clone(), bus);
        match &result {
            Ok(res) => {
                if res.passed() {
                    self.current_scene = name;
                }
            },
            Err(_) => {},
        }
        result
    }
}

/// Switching scenes round trip: after `render_scene(name)` passes, the current
/// scene is the one named `name`; when a subscriber cancels, or the name is
/// unknown, the current scene is what it was before.
pub proof fn lemma_render_round_trip(
    before: EngineEnvironment,
    after: EngineEnvironment,
    name: Seq<char>,
    r: Result<EventResult, SceneError>,
)
    requires
        before.wf(),
        scene_rendered(before, after, name, r),
    ensures
        before.scene_manager.named(name) is Some && r is Ok && r.unwrap().is_passed() ==> {
            &&& after.scene_manager.named(after.current_scene@) is Some
            &&& after.scene_manager.named(after.current_scene@).unwrap().name@ == name
        },
        !(r is Ok && r.unwrap().is_passed()) ==> after.current_scene@ == before.current_scene@
            && after.scene_manager.named(after.current_scene@) == before.scene_manager.named(
            before.current_scene@,
        ),
{
    if before.scene_manager.named(name) is Some {
        lemma_scene_named_has_name(before.scene_manager.scene_map@, name);
    }
}

/// When no subscriber ever cancels an uncancelled change-scene event, switching
/// to a registered scene passes, and that scene becomes the current one.
pub proof fn lemma_uncancelled_switch<S: Subscriber<ChangeSceneEvent>>(
    before: EngineEnvironment,
    after: EngineEnvironment,
    name: Seq<char>,
    r: Result<EventResult, SceneError>,
    subs: Seq<S>,
)
    requires
        before.wf(),
        scene_rendered(before, after, name, r),
        change_dispatched(subs, name, r),
        before.scene_manager.named(name) is Some,
        forall|j: int, a: ChangeSceneEvent, b: ChangeSceneEvent|
            0 <= j < subs.len() && #[trigger] subs[j].notified(a, b) && !a.is_cancelled()
                ==> !b.is_cancelled(),
    ensures
        r == Ok::<EventResult, SceneError>(EventResult::EvPassed),
        after.current_scene@ == name,
        after.scene_manager.named(after.current_scene@) is Some,
        after.scene_manager.named(after.current_scene@).unwrap().name@ == name,
{
    match r {
        Err(e) => {
            assert(e == SceneError::NotFound);
        },
        Ok(_) => {},
    }
    let res = r.unwrap();
    assert(exists|start: ChangeSceneEvent, end: ChangeSceneEvent|
        fresh_change(start, name) && dispatched(subs, start, end, res));
    let (start, end) = choose|start: ChangeSceneEvent, end: ChangeSceneEvent|
        fresh_change(start, name) && dispatched(subs, start, end, res);
    let trace = choose|trace: Seq<ChangeSceneEvent>| dispatch_chain(subs, start, trace, end);
    lemma_no_cancel_passes(subs, start, trace, end, res);
    lemma_scene_named_has_name(before.scene_manager.scene_map@, name);
}

} // verus!
