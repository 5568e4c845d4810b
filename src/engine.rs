use vstd::prelude::*;

use crate::bus::{EventBus, Subscriber};
use crate::environment::{scene_rendered, EngineEnvironment};
use crate::events::{Action, ActionEvent, Event, EventResult};
use crate::bus::dispatched;
use crate::manager::{change_dispatched, default_name, ChangeSceneEvent, SceneError};
use crate::renderer::{
    after_cycle, render_plan, resolution_updated, BackendCommand, BgfxRenderer, FramePlan,
    RendererError, RendererStatus, WindowPlatform, CLEAR_COLOR,
};
use crate::scene::Scene;
use crate::shader::{
    shader_added, shader_at, shader_loaded, ShaderContainer, ShaderContainerLoadContext,
    ShaderManager,
};

verus! {

/// Why a shader could not be had.
#[derive(Clone, Copy, Debug, PartialEq, Eq, Structural)]
pub enum ShaderError {
    /// No shader was registered under that id.
    NotFound,
}

/// The engine context: renderer, scenes, shaders, and the buses on which
/// scene changes and actions are announced.
pub struct Engine<S> {
    pub renderer: BgfxRenderer,
    pub environment: EngineEnvironment,
    pub shader_manager: ShaderManager,
    pub scene_bus: EventBus<S>,
    pub action_bus: EventBus<S>,
}

/// The relation between an engine before and after `render_scene(name)`
/// returned `r`: the environment moves as `scene_rendered` says, and the
/// renderer is pointed at `name` exactly when the change passed.
pub open spec fn engine_scene_rendered<S: Subscriber<ChangeSceneEvent>>(
    before: Engine<S>,
    after: Engine<S>,
    name: Seq<char>,
    r: Result<EventResult, SceneError>,
) -> bool {
    &&& scene_rendered(before.environment, after.environment, name, r)
    &&& change_dispatched(before.scene_bus.subscribers@, name, r)
    &&& before.environment.scene_manager.named(name) is Some && before.scene_bus.subscribers@.len()
        == 0 ==> r == Ok::<EventResult, SceneError>(EventResult::EvPassed)
    &&& after.shader_manager == before.shader_manager
    &&& after.scene_bus == before.scene_bus
    &&& after.action_bus == before.action_bus
    &&& if r is Ok && r.unwrap().is_passed() {
        &&& after.renderer.scene is Some
        &&& after.renderer.scene.unwrap()@ == name
        &&& after.renderer == (BgfxRenderer { scene: after.renderer.scene, ..before.renderer })
    } else {
        after.renderer == before.renderer
    }
}

/// The engine with its renderer started.
pub open spec fn started<S>(e: Engine<S>) -> Engine<S> {
    Engine { renderer: BgfxRenderer { status: RendererStatus::Ready, ..e.renderer }, ..e }
}

impl<S> Engine<S> {
    pub open spec fn wf(&self) -> bool {
        self.environment.wf()
    }

    pub fn new(renderer: BgfxRenderer) -> (r: Self)
        ensures
            r.wf(),
            r.renderer == renderer,
            r.environment.current_scene@ == default_name(),
            r.shader_manager.shaders@.len() == 0,
            r.scene_bus.subscribers@.len() == 0,
            r.action_bus.subscribers@.len() == 0,
    {
        Engine {
            renderer,
            environment: EngineEnvironment::new(),
            shader_manager: ShaderManager::new(),
            scene_bus: EventBus::new(String::from_str("engine")),
            action_bus: EventBus::new(String::from_str("engine")),
        }
    }

    pub fn get_environment(&self) -> (r: &EngineEnvironment)
        ensures
            *r == self.environment,
    {
        &self.environment
    }

    /// One frame of the renderer over the engine's scenes and shaders.
    pub fn do_frame(&mut self) -> (r: FramePlan)
        ensures
            (r.commands@, r.skipped) == render_plan(
                old(self).renderer,
                old(self).environment.scene_manager,
                old(self).shader_manager,
            ),
            *final(self) == (Engine { renderer: after_cycle(old(self).renderer), ..*old(self) }),
    {
        self.renderer.do_render_cycle(&self.environment.scene_manager, &self.shader_manager)
    }

    pub fn update_resolution(&mut self, width: u32, height: u32)
        ensures
            resolution_updated(old(self).renderer, final(self).renderer, width, height),
            *final(self) == (Engine { renderer: final(self).renderer, ..*old(self) }),
    {
        self.renderer.update_surface_resolution(width, height);
    }

    pub fn set_debug(&mut self, debug: bool) -> (r: BackendCommand)
        ensures
            r == (BackendCommand::SetDebug { text: debug }),
            final(self).renderer == (BgfxRenderer { debug, ..old(self).renderer }),
            *final(self) == (Engine { renderer: final(self).renderer, ..*old(self) }),
    {
        self.renderer.do_debug(debug)
    }

    pub fn create_scene(&mut self, name: String)
        requires
            old(self).wf(),
        ensures
            final(self).wf(),
            final(self).environment.scene_manager.named(name@) is Some,
            final(self).environment.current_scene@ == old(self).environment.current_scene@,
            forall|d: Seq<char>|
                d != name@ ==> #[trigger] final(self).environment.scene_manager.named(d) == old(
                    self,
                ).environment.scene_manager.named(d),
            *final(self) == (Engine { environment: final(self).environment, ..*old(self) }),
    {
        self.environment.create_scene(name);
    }

    pub fn get_scene(&self, name: String) -> (r: Result<&Scene, SceneError>)
        ensures
            match r {
                Ok(s) => self.environment.scene_manager.named(name@) == Some(*s),
                Err(e) => self.environment.scene_manager.named(name@) is None,
            },
    {
        self.environment.get_scene(name)
    }

    pub fn current_scene(&self) -> (r: Result<&Scene, SceneError>)
        ensures
            match r {
                Ok(s) => self.environment.scene_manager.named(self.environment.current_scene@) == Some(
                    *s,
                ),
                Err(e) => self.environment.scene_manager.named(
                    self.environment.current_scene@,
                ) is None,
            },
            self.wf() ==> r is Ok,
    {
        self.environment.current_scene()
    }

    pub fn add_shader(&mut self, shader: ShaderContainer) -> (r: i32)
        requires
            old(self).shader_manager.shaders@.len() < i32::MAX,
        ensures
            shader_added(old(self).shader_manager, final(self).shader_manager, shader, r),
            *final(self) == (Engine { shader_manager: final(self).shader_manager, ..*old(self) }),
    {
        self.shader_manager.add_shader(shader)
    }

    pub fn get_shader(&self, id: i32) -> (r: Result<&ShaderContainer, ShaderError>)
        ensures
            match r {
                Ok(s) => shader_at(self.shader_manager, id) == Some(*s),
                Err(e) => shader_at(self.shader_manager, id) is None && e == ShaderError::NotFound,
            },
    {
        match self.shader_manager.get_shader(id) {
            Some(s) => Ok(s),
            None => Err(ShaderError::NotFound),
        }
    }

    /// Records what the backend built for shader `id` on a `LoadShader` call.
    pub fn load_shader(&mut self, id: i32, context: ShaderContainerLoadContext) -> (r: bool)
        ensures
            shader_loaded(old(self).shader_manager, final(self).shader_manager, id, context, r),
            *final(self) == (Engine { shader_manager: final(self).shader_manager, ..*old(self) }),
    {
        self.shader_manager.load_shader(id, context)
    }
}

impl<S: Subscriber<ChangeSceneEvent>> Engine<S> {
    /// Announces a change to the scene `name`; unless a subscriber cancels
    /// it, the environment's current scene and the renderer's scene move there.
    pub fn render_scene(&mut self, name: String) -> (r: Result<EventResult, SceneError>)
        requires
            old(self).wf(),
        ensures
            final(self).wf(),
            engine_scene_rendered(*old(self), *final(self), name@, r),
            old(self).environment.scene_manager.named(name@) is Some
                && old(self).scene_bus.subscribers@.len() == 0 ==> r == Ok::<EventResult, SceneError>(
                EventResult::EvPassed,
            ),
    {
        let result = self.environment.render_scene(name.clone(), &self.scene_bus);
        match &result {
            Ok(res) => {
                if res.passed() {
                    self.renderer.set_scene(name);
                }
            },
            Err(_) => {},
        }
        result
    }

    /// Starts the renderer on its window and switches to the default scene.
    pub fn init(&mut self) -> (r: Result<Vec<BackendCommand>, RendererError>)
        requires
            old(self).wf(),
        ensures
            final(self).wf(),
            r is Err <==> old(self).renderer.surface == WindowPlatform::Unsupported,
            r is Err ==> *final(self) == *old(self),
            r is Ok ==> r.unwrap()@ == seq![
                BackendCommand::Init {
                    width: old(self).renderer.resolution.width,
                    height: old(self).renderer.resolution.height,
                    platform: old(self).renderer.surface,
                },
                BackendCommand::SetDebug { text: false },
                BackendCommand::SetViewClear { rgba: CLEAR_COLOR },
            ],
            r is Ok && old(self).scene_bus.subscribers@.len() == 0 ==> {
                &&& final(self).environment.current_scene@ == default_name()
                &&& final(self).renderer.scene is Some
                &&& final(self).renderer.scene.unwrap()@ == default_name()
            },
            r is Ok ==> exists|res: Result<EventResult, SceneError>|
                #[trigger] engine_scene_rendered(
                    started(*old(self)),
                    *final(self),
                    default_name(),
                    res,
                ),
    {
        let cmds = self.renderer.init();
        match cmds {
            Ok(c) => {
                let name = String::from_str("default");
                proof {
                    reveal_strlit("default");
                    assert(name@ =~= default_name());
                }
                let res = self.render_scene(name);
                assert(engine_scene_rendered(
                    started(*old(self)),
                    *self,
                    default_name(),
                    res,
                ));
                Ok(c)
            },
            Err(e) => Err(e),
        }
    }
}

impl<S: Subscriber<ChangeSceneEvent> + Subscriber<ActionEvent>> Engine<S> {
    /// Announces an action; unless a subscriber cancels it, the engine carries
    /// it out: a scene change, or a new surface size for the next frame.
    pub fn handle_action(&mut self, event: &mut ActionEvent) -> (r: EventResult)
        requires
            old(self).wf(),
        ensures
            final(self).wf(),
            dispatched(old(self).action_bus.subscribers@, *old(event), *final(event), r),
            old(self).action_bus.subscribers@.len() == 0 ==> r.is_passed(),
            old(self).action_bus.subscribers@.len() > 0 ==> (r.is_passed()
                <==> !final(event).is_cancelled()),
            !r.is_passed() ==> *final(self) == *old(self),
            r.is_passed() ==> match final(event).action {
                Action::UpdateResolution(w, h) => resolution_updated(
                    old(self).renderer,
                    final(self).renderer,
                    w,
                    h,
                ) && *final(self) == (Engine { renderer: final(self).renderer, ..*old(self) }),
                Action::ChangeScene(name) => {
                    &&& exists|res: Result<EventResult, SceneError>|
                        engine_scene_rendered(*old(self), *final(self), name@, res)
                    &&& old(self).scene_bus.subscribers@.len() == 0
                        && old(self).environment.scene_manager.named(name@) is Some ==> {
                        &&& final(self).environment.current_scene@ == name@
                        &&& final(self).renderer.scene is Some
                        &&& final(self).renderer.scene.unwrap()@ == name@
                    }
                },
                Action::ViewPortUpdate(..) => *final(self) == *old(self),
            },
    {
        let result = self.action_bus.dispatch(event);
        if result.passed() {
            match &event.action {
                Action::ChangeScene(name) => {
                    let _ = self.render_scene(name.clone());
                },
                Action::UpdateResolution(width, height) => {
                    self.update_resolution(*width, *height);
                },
                Action::ViewPortUpdate(..) => {},
            }
        }
        result
    }
}

} // verus!
