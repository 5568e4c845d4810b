use vstd::prelude::*;

use crate::bus::{dispatched, EventBus, Subscriber};
use crate::events::{opt_chars, Event, EventResult};
use crate::geometry::Point3;
use crate::scene::Scene;

verus! {

/// Why a scene could not be had.
#[derive(Clone, Copy, Debug, PartialEq, Eq, Structural)]
pub enum SceneError {
    /// No scene of that name is registered.
    NotFound,
}

/// The name of the scene that every manager holds from its construction.
pub open spec fn default_name() -> Seq<char> {
    seq!['d', 'e', 'f', 'a', 'u', 'l', 't']
}

/// `i` is the earliest scene in `s` named `name`.
pub open spec fn is_first_scene(s: Seq<Scene>, name: Seq<char>, i: int) -> bool {
    &&& 0 <= i < s.len()
    &&& s[i].name@ == name
    &&& forall|j: int| 0 <= j < i ==> (#[trigger] s[j]).name@ != name
}

/// The scene registered under `name`, if any.
pub open spec fn scene_named(s: Seq<Scene>, name: Seq<char>) -> Option<Scene> {
    if exists|i: int| is_first_scene(s, name, i) {
        Some(s[choose|i: int| is_first_scene(s, name, i)])
    } else {
        None
    }
}

pub proof fn lemma_first_scene_is(s: Seq<Scene>, name: Seq<char>, i: int)
    requires
        is_first_scene(s, name, i),
    ensures
        scene_named(s, name) == Some(s[i]),
{
    let k = choose|k: int| is_first_scene(s, name, k);
    if k < i {
        assert(s[k].name@ != name);
    } else if k > i {
        assert(s[i].name@ != name);
    }
}

/// A scene found under a name carries that name.
pub proof fn lemma_scene_named_has_name(s: Seq<Scene>, name: Seq<char>)
    requires
        scene_named(s, name) is Some,
    ensures
        scene_named(s, name).unwrap().name@ == name,
{
    let k = choose|k: int| is_first_scene(s, name, k);
    lemma_first_scene_is(s, name, k);
}

pub proof fn lemma_replace_scene(before: Seq<Scene>, after: Seq<Scene>, name: Seq<char>, k: int, x: Scene)
    requires
        is_first_scene(before, name, k),
        x.name@ == name,
        after == before.update(k, x),
    ensures
        scene_named(after, name) == Some(x),
        forall|d: Seq<char>| d != name ==> #[trigger] scene_named(after, d) == scene_named(before, d),
{
    assert(is_first_scene(after, name, k));
    lemma_first_scene_is(after, name, k);
    assert forall|d: Seq<char>| d != name implies #[trigger] scene_named(after, d) == scene_named(
        before,
        d,
    ) by {
        if exists|i: int| is_first_scene(before, d, i) {
            let i = choose|i: int| is_first_scene(before, d, i);
            assert(is_first_scene(after, d, i));
            lemma_first_scene_is(before, d, i);
            lemma_first_scene_is(after, d, i);
        } else {
            if exists|i: int| is_first_scene(after, d, i) {
                let i = choose|i: int| is_first_scene(after, d, i);
                assert(i != k);
                assert(before[i] == after[i]);
                assert forall|j: int| 0 <= j < i implies (#[trigger] before[j]).name@ != d by {
                    if j != k {
                        assert(before[j] == after[j]);
                    }
                }
                assert(is_first_scene(before, d, i));
            }
        }
    }
}

pub proof fn lemma_push_scene(before: Seq<Scene>, after: Seq<Scene>, x: Scene)
    requires
        forall|j: int| 0 <= j < before.len() ==> (#[trigger] before[j]).name@ != x.name@,
        after == before.push(x),
    ensures
        scene_named(after, x.name@) == Some(x),
        forall|d: Seq<char>| d != x.name@ ==> #[trigger] scene_named(after, d) == scene_named(before, d),
{
    let n = before.len() as int;
    assert(is_first_scene(after, x.name@, n));
    lemma_first_scene_is(after, x.name@, n);
    assert forall|d: Seq<char>| d != x.name@ implies #[trigger] scene_named(after, d) == scene_named(
        before,
        d,
    ) by {
        if exists|i: int| is_first_scene(before, d, i) {
            let i = choose|i: int| is_first_scene(before, d, i);
            assert(is_first_scene(after, d, i));
            lemma_first_scene_is(before, d, i);
            lemma_first_scene_is(after, d, i);
        } else {
            if exists|i: int| is_first_scene(after, d, i) {
                let i = choose|i: int| is_first_scene(after, d, i);
                assert(i != n);
                assert(before[i] == after[i]);
                assert forall|j: int| 0 <= j < i implies (#[trigger] before[j]).name@ != d by {
                    assert(before[j] == after[j]);
                }
                assert(is_first_scene(before, d, i));
            }
        }
    }
}

/// Asks the subscribers to switch to the scene named `scene`; they may veto it.
pub struct ChangeSceneEvent {
    pub scene: String,
    pub cancelled: bool,
    pub reason: Option<String>,
}

impl ChangeSceneEvent {
    pub fn new(scene: String) -> (r: Self)
        ensures
            r.scene@ == scene@,
            !r.cancelled,
            r.reason is None,
    {
        ChangeSceneEvent { scene, cancelled: false, reason: None }
    }
}

impl Event for ChangeSceneEvent {
    open spec fn is_cancelled(&self) -> bool {
        self.cancelled
    }

    open spec fn reason(&self) -> Option<Seq<char>> {
        opt_chars(self.reason)
    }

    fn cancellable(&self) -> (r: bool) {
        true
    }

    fn cancelled(&self) -> (r: bool) {
        self.cancelled
    }

    fn get_cancelled_reason(&self) -> (r: Option<String>) {
        match &self.reason {
            Some(s) => Some(s.clone()),
            None => None,
        }
    }

    fn set_cancelled(&mut self, cancel: bool, reason: Option<String>) {
        self.cancelled = cancel;
        self.reason = reason;
    }

    fn cancel(&mut self, reason: Option<String>) {
        self.set_cancelled(true, reason);
    }
}

/// A change-scene event for `name` as it is first dispatched.
pub open spec fn fresh_change(e: ChangeSceneEvent, name: Seq<char>) -> bool {
    e.scene@ == name && !e.cancelled && e.reason is None
}

/// An `Ok` result is what one dispatch of a fresh change-scene event for
/// `name` to `subs` reported.
pub open spec fn change_dispatched<S: Subscriber<ChangeSceneEvent>>(
    subs: Seq<S>,
    name: Seq<char>,
    r: Result<EventResult, SceneError>,
) -> bool {
    match r {
        Ok(res) => exists|start: ChangeSceneEvent, end: ChangeSceneEvent|
            #![trigger dispatched(subs, start, end, res)]
            fresh_change(start, name) && dispatched(subs, start, end, res),
        Err(_) => true,
    }
}

/// The registry of named scenes; "default" is there from the start.
pub struct SceneManager {
    pub scene_map: Vec<Scene>,
}

/// The relation between a manager before and after `add_scene(scene)`.
pub open spec fn scene_added(before: SceneManager, after: SceneManager, scene: Scene) -> bool {
    &&& scene_named(after.scene_map@, scene.name@) == Some(scene)
    &&& forall|d: Seq<char>|
        d != scene.name@ ==> #[trigger] scene_named(after.scene_map@, d) == scene_named(
            before.scene_map@,
            d,
        )
}

impl SceneManager {
    pub open spec fn named(&self, name: Seq<char>) -> Option<Scene> {
        scene_named(self.scene_map@, name)
    }

    pub fn new() -> (r: Self)
        ensures
            r.named(default_name()) is Some,
            r.named(default_name()).unwrap().chunks().len() == 0,
            r.named(default_name()).unwrap().corners().len() == 0,
            r.named(default_name()).unwrap().camera.eye == (Point3 { x: 0, y: 0, z: 0 }),
            r.named(default_name()).unwrap().camera.at == (Point3 { x: 0, y: 0, z: 0 }),
            r.named(default_name()).unwrap().camera.up == (Point3 { x: 0, y: 0, z: 0 }),
            forall|d: Seq<char>| d != default_name() ==> (#[trigger] r.named(d)) is None,
    {
        let name = String::from_str("default");
        proof {
            reveal_strlit("default");
            assert(name@ =~= default_name());
        }
        let scene = Scene::with_name(name);
        let mut scene_map: Vec<Scene> = Vec::new();
        scene_map.push(scene);
        let r = SceneManager { scene_map };
        proof {
            assert(is_first_scene(r.scene_map@, default_name(), 0));
            lemma_first_scene_is(r.scene_map@, default_name(), 0);
            assert forall|d: Seq<char>| d != default_name() implies (#[trigger] r.named(d)) is None by {
                if exists|i: int| is_first_scene(r.scene_map@, d, i) {
                    let i = choose|i: int| is_first_scene(r.scene_map@, d, i);
                    assert(i == 0);
                }
            }
        }
        r
    }

    /// Position in `scene_map` of the scene registered under `name`, if any.
    pub fn find_scene(&self, name: &String) -> (r: Option<usize>)
        ensures
            match r {
                Some(i) => is_first_scene(self.scene_map@, name@, i as int),
                None => forall|j: int|
                    0 <= j < self.scene_map@.len() ==> (#[trigger] self.scene_map@[j]).name@ != name@,
            },
    {
        let n = self.scene_map.len();
        let mut i: usize = 0;
        while i < n
            invariant
                n == self.scene_map@.len(),
                i <= n,
                forall|j: int| 0 <= j < i ==> (#[trigger] self.scene_map@[j]).name@ != name@,
            decreases n - i,
        {
            if self.scene_map[i].name == *name {
                return Some(i);
            }
            i = i + 1;
        }
        None
    }

    /// Registers `scene` under its name, replacing a scene of the same name.
    pub fn add_scene(&mut self, scene: Scene)
        ensures
            scene_added(*old(self), *final(self), scene),
    {
        let ghost before = self.scene_map@;
        match self.find_scene(&scene.name) {
            Some(k) => {
                let ghost x = scene;
                self.scene_map.set(k, scene);
                proof {
                    lemma_replace_scene(before, self.scene_map@, x.name@, k as int, x);
                }
            },
            None => {
                let ghost x = scene;
                self.scene_map.push(scene);
                proof {
                    lemma_push_scene(before, self.scene_map@, x);
                }
            },
        }
    }

    pub fn get_scene(&self, name: String) -> (r: Result<&Scene, SceneError>)
        ensures
            match r {
                Ok(s) => self.named(name@) == Some(*s),
                Err(e) => self.named(name@) is None && e == SceneError::NotFound,
            },
    {
        match self.find_scene(&name) {
            Some(k) => {
                proof {
                    lemma_first_scene_is(self.scene_map@, name@, k as int);
                }
                Ok(&self.scene_map[k])
            },
            None => Err(SceneError::NotFound),
        }
    }

    pub fn has_scene(&self, name: String) -> (r: bool)
        ensures
            r == self.named(name@) is Some,
    {
        match self.get_scene(name) {
            Ok(_) => true,
            Err(_) => false,
        }
    }

    /// Dispatches a change-scene event for the scene `name` to the bus's
    /// subscribers and reports what the dispatch returned; an unknown name is
    /// refused before anything is dispatched.
    pub fn render_scene<S: Subscriber<ChangeSceneEvent>>(&self, name: String, bus: &EventBus<S>) -> (r:
        Result<EventResult, SceneError>)
        ensures
            self.named(name@) is None <==> r == Err::<EventResult, SceneError>(SceneError::NotFound),
            self.named(name@) is Some && bus.subscribers@.len() == 0 ==> r
                == Ok::<EventResult, SceneError>(EventResult::EvPassed),
            change_dispatched(bus.subscribers@, name@, r),
    {
        if !self.has_scene(name.clone()) {
            return Err(SceneError::NotFound);
        }
        let mut event = ChangeSceneEvent::new(name);
        let ghost start = event;
        let result = bus.dispatch(&mut event);
        proof {
            assert(fresh_change(start, name@) && dispatched(bus.subscribers@, start, event, result));
        }
        Ok(result)
    }
}

} // verus!
