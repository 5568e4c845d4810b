use scene_engine::bus::{EventBus, Subscriber};
use scene_engine::chunk::Chunk;
use scene_engine::engine::{Engine, ShaderError};
use scene_engine::events::{Action, ActionEvent, Event, EventResult};
use scene_engine::geometry::{ChunkCoordinate, Point2, Point3};
use scene_engine::manager::{ChangeSceneEvent, SceneError, SceneManager};
use scene_engine::object::{ColoredSceneObject, ImageTexturedSceneObject, SceneObject, TextureImage};
use scene_engine::renderer::{
    BackendCommand, BgfxRenderer, DebugLine, FrameSkip, RenderPerspective, RenderResolution,
    RendererError, RendererStatus, TextDebugData, WindowPlatform, CLEAR_COLOR,
};
use scene_engine::scene::{ChunkError, Scene};
use scene_engine::shader::{
    BgfxShaderContainer, BgfxShaderContainerLoadContext, ProgramHandle, ShaderContainer,
    ShaderContainerLoadContext, ShaderManager,
};

fn perspective() -> RenderPerspective {
    RenderPerspective::new(800, 600, 60_000, 100, 100_000)
}

fn ready_renderer() -> BgfxRenderer {
    let mut r = BgfxRenderer::new(800, 600, WindowPlatform::Xlib, false, perspective());
    assert!(r.init().is_ok());
    r
}

fn colored(shader: i32, at: Point3) -> SceneObject {
    SceneObject::Colored(ColoredSceneObject::new(Vec::new(), vec![0, 1, 2], shader, at))
}

fn scenes_with_chunk(objects: Vec<SceneObject>) -> SceneManager {
    let mut manager = SceneManager::new();
    let mut scene = Scene::with_name("main".to_string());
    let mut chunk = Chunk::new(ChunkCoordinate::new(0, 0));
    for o in objects {
        chunk.add_object(o);
    }
    scene.add_chunk(chunk, Point2::new(-10, -10), Point2::new(10, 10));
    manager.add_scene(scene);
    manager
}

fn count_resets(cmds: &[BackendCommand]) -> usize {
    cmds.iter().filter(|c| matches!(c, BackendCommand::Reset { .. })).count()
}

#[test]
fn init_on_supported_platform() {
    let mut r = BgfxRenderer::new(640, 480, WindowPlatform::Wayland, true, perspective());
    assert_eq!(r.status, RendererStatus::Uninitialized);
    let cmds = r.init().unwrap();
    assert_eq!(
        cmds,
        vec![
            BackendCommand::Init { width: 640, height: 480, platform: WindowPlatform::Wayland },
            BackendCommand::SetDebug { text: false },
            BackendCommand::SetViewClear { rgba: 0x103030ff },
        ]
    );
    assert_eq!(CLEAR_COLOR, 0x103030ff);
    assert_eq!(r.status, RendererStatus::Ready);
}

#[test]
fn init_on_unsupported_platform_fails() {
    let mut r = BgfxRenderer::new(640, 480, WindowPlatform::Unsupported, false, perspective());
    assert_eq!(r.init(), Err(RendererError::UnsupportedPlatform));
    assert_eq!(r.status, RendererStatus::Uninitialized);
    let plan = r.do_render_cycle(&SceneManager::new(), &ShaderManager::new());
    assert!(plan.commands.is_empty());
    assert_eq!(plan.skipped, Some(FrameSkip::NotReady));
}

#[test]
fn frame_draws_colored_objects_and_loads_shaders_once() {
    let mut shaders = ShaderManager::new();
    let s0 = shaders.add_shader(ShaderContainer::Bgfx(BgfxShaderContainer::new(vec![1], vec![2])));
    let s1 = shaders.add_shader(ShaderContainer::Bgfx(BgfxShaderContainer::new(vec![3], vec![4])));
    shaders.load_shader(
        s1,
        ShaderContainerLoadContext::Bgfx(BgfxShaderContainerLoadContext { program: ProgramHandle { idx: 9 } }),
    );
    let image = SceneObject::ImageTextured(ImageTexturedSceneObject::new(
        Vec::new(),
        Vec::new(),
        TextureImage::new(1, 1, vec![0, 0, 0]),
        s0,
        Point3::new(0, 0, 0),
    ));
    let scenes = scenes_with_chunk(vec![
        colored(s0, Point3::new(1, 0, 0)),
        image,
        colored(s0, Point3::new(2, 0, 0)),
        colored(s1, Point3::new(3, 0, 0)),
        colored(17, Point3::new(4, 0, 0)),
    ]);
    let mut r = ready_renderer();
    r.set_scene("main".to_string());
    let plan = r.do_render_cycle(&scenes, &shaders);
    let camera = scenes.get_scene("main".to_string()).unwrap().camera;
    let c = ChunkCoordinate::new(0, 0);
    assert_eq!(plan.skipped, None);
    assert_eq!(
        plan.commands,
        vec![
            BackendCommand::Reset { width: 800, height: 600 },
            BackendCommand::DebugTextClear,
            BackendCommand::SetViewRect { width: 800, height: 600 },
            BackendCommand::SetViewTransform { view: camera, perspective: perspective() },
            BackendCommand::LoadShader { shader: 0 },
            BackendCommand::DrawColored { chunk: c, object: 0, shader: 0, translation: Point3::new(1, 0, 0) },
            BackendCommand::DrawColored { chunk: c, object: 2, shader: 0, translation: Point3::new(2, 0, 0) },
            BackendCommand::DrawColored { chunk: c, object: 3, shader: 1, translation: Point3::new(3, 0, 0) },
            BackendCommand::Touch,
            BackendCommand::Frame,
        ]
    );
    assert_eq!(r.old_resolution, RenderResolution::new(800, 600));
}

#[test]
fn frame_without_scene_or_chunk_is_skipped() {
    let shaders = ShaderManager::new();
    let scenes = scenes_with_chunk(Vec::new());
    let mut r = ready_renderer();
    let plan = r.do_render_cycle(&scenes, &shaders);
    assert_eq!(plan.skipped, Some(FrameSkip::NoScene));
    assert_eq!(plan.commands.len(), 3);

    r.set_scene("missing".to_string());
    let plan = r.do_render_cycle(&scenes, &shaders);
    assert_eq!(plan.skipped, Some(FrameSkip::SceneNotFound));
    assert_eq!(plan.commands, vec![
        BackendCommand::DebugTextClear,
        BackendCommand::SetViewRect { width: 800, height: 600 },
    ]);

    r.set_scene("default".to_string());
    let plan = r.do_render_cycle(&scenes, &shaders);
    assert_eq!(plan.skipped, Some(FrameSkip::NoChunk(ChunkError::NoMatchingRange)));
    assert_eq!(plan.commands.len(), 3);
    assert!(!plan.commands.contains(&BackendCommand::Frame));
}

#[test]
fn debug_overlay_prints_each_line_on_its_row() {
    let scenes = scenes_with_chunk(Vec::new());
    let shaders = ShaderManager::new();
    let mut r = ready_renderer();
    r.set_scene("main".to_string());
    let mut data = TextDebugData::new();
    data.add_line(DebugLine::new("fps".to_string(), "60".to_string()));
    data.add_line(DebugLine::new("scene".to_string(), "main".to_string()));
    r.set_debug_data(data);
    let plan = r.do_render_cycle(&scenes, &shaders);
    assert!(!plan.commands.contains(&BackendCommand::DebugText { row: 0 }));
    assert_eq!(r.do_debug(true), BackendCommand::SetDebug { text: true });
    let plan = r.do_render_cycle(&scenes, &shaders);
    let n = plan.commands.len();
    assert_eq!(
        plan.commands[n - 4..].to_vec(),
        vec![
            BackendCommand::DebugText { row: 0 },
            BackendCommand::DebugText { row: 1 },
            BackendCommand::Touch,
            BackendCommand::Frame,
        ]
    );
    assert_eq!(r.debug_data.as_ref().unwrap().lines[1].key, "scene");
    assert_eq!(r.do_debug(false), BackendCommand::SetDebug { text: false });
}

#[test]
fn resolution_change_resets_once() {
    let scenes = scenes_with_chunk(Vec::new());
    let shaders = ShaderManager::new();
    let mut r = ready_renderer();
    r.set_scene("main".to_string());
    assert_eq!(count_resets(&r.do_render_cycle(&scenes, &shaders).commands), 1);
    assert_eq!(count_resets(&r.do_render_cycle(&scenes, &shaders).commands), 0);
    r.update_surface_resolution(1024, 768);
    r.update_surface_resolution(1024, 768);
    let plan = r.do_render_cycle(&scenes, &shaders);
    assert_eq!(count_resets(&plan.commands), 1);
    assert_eq!(plan.commands[0], BackendCommand::Reset { width: 1024, height: 768 });
    assert_eq!(count_resets(&r.do_render_cycle(&scenes, &shaders).commands), 0);
    assert_eq!(count_resets(&r.do_render_cycle(&scenes, &shaders).commands), 0);
    r.update_surface_resolution(1024, 768);
    assert_eq!(count_resets(&r.do_render_cycle(&scenes, &shaders).commands), 0);
    r.update_surface_resolution(640, 480);
    r.update_surface_resolution(1024, 768);
    assert_eq!(count_resets(&r.do_render_cycle(&scenes, &shaders).commands), 0);
}

#[test]
fn resolution_and_perspective_setters() {
    let mut res = RenderResolution::new(1, 2);
    res.update(3, 4);
    assert_eq!(res, RenderResolution::new(3, 4));
    let mut other = RenderResolution::new(0, 0);
    other.from(&res);
    assert_eq!(other, RenderResolution::new(3, 4));
    let mut r = ready_renderer();
    r.update_perspective(RenderPerspective::new(1, 1, 90_000, 10, 1_000));
    assert_eq!(r.perspective.fov, 90_000);
    assert_eq!(r.clean_up(), BackendCommand::SetViewClear { rgba: 0x103030ff });
    assert_eq!(r.shutdown(), vec![BackendCommand::Shutdown]);
    assert_eq!(r.status, RendererStatus::Stopped);
}

enum EngineSub {
    Observe,
    VetoScenes,
    VetoActions,
}

impl Subscriber<ChangeSceneEvent> for EngineSub {
    fn notified(&self, before: ChangeSceneEvent, after: ChangeSceneEvent) -> bool {
        match self {
            EngineSub::VetoScenes => after.cancelled,
            _ => before.cancelled == after.cancelled,
        }
    }

    fn notify(&self, event: &mut ChangeSceneEvent) {
        if let EngineSub::VetoScenes = self {
            event.cancel(Some("no switch".to_string()));
        }
    }
}

impl Subscriber<ActionEvent> for EngineSub {
    fn notified(&self, before: ActionEvent, after: ActionEvent) -> bool {
        match self {
            EngineSub::VetoActions => after.cancelled,
            _ => before.cancelled == after.cancelled,
        }
    }

    fn notify(&self, event: &mut ActionEvent) {
        if let EngineSub::VetoActions = self {
            event.cancel(None);
        }
    }
}

#[test]
fn engine_switches_renderer_scene_with_environment() {
    let mut engine: Engine<EngineSub> =
        Engine::new(BgfxRenderer::new(800, 600, WindowPlatform::Win32, false, perspective()));
    engine.scene_bus.subscribe(EngineSub::Observe);
    assert!(engine.init().is_ok());
    assert_eq!(engine.renderer.scene.as_deref(), Some("default"));
    engine.create_scene("level".to_string());
    assert_eq!(engine.render_scene("level".to_string()), Ok(EventResult::EvPassed));
    assert_eq!(engine.current_scene().unwrap().name, "level");
    assert_eq!(engine.renderer.scene.as_deref(), Some("level"));
    assert_eq!(engine.render_scene("none".to_string()), Err(SceneError::NotFound));
    assert_eq!(engine.get_environment().current_scene, "level");

    engine.scene_bus.subscribe(EngineSub::VetoScenes);
    let r = engine.render_scene("default".to_string());
    assert_eq!(r, Ok(EventResult::EvCancelled("no switch".to_string())));
    assert_eq!(engine.current_scene().unwrap().name, "level");
    assert_eq!(engine.renderer.scene.as_deref(), Some("level"));
}

#[test]
fn engine_actions_change_scene_and_resolution() {
    let mut engine: Engine<EngineSub> =
        Engine::new(BgfxRenderer::new(800, 600, WindowPlatform::AppKit, false, perspective()));
    engine.init().unwrap();
    engine.create_scene("other".to_string());
    let mut change = ActionEvent::new(Action::ChangeScene("other".to_string()));
    assert_eq!(engine.handle_action(&mut change), EventResult::EvPassed);
    assert_eq!(engine.current_scene().unwrap().name, "other");

    let mut resize = ActionEvent::new(Action::UpdateResolution(320, 200));
    assert_eq!(engine.handle_action(&mut resize), EventResult::EvPassed);
    assert_eq!(engine.renderer.resolution, RenderResolution::new(320, 200));
    let plan = engine.do_frame();
    assert_eq!(plan.commands[0], BackendCommand::Reset { width: 320, height: 200 });

    engine.action_bus.subscribe(EngineSub::VetoActions);
    let mut resize = ActionEvent::new(Action::UpdateResolution(1, 1));
    assert_eq!(engine.handle_action(&mut resize), EventResult::EvCancelled(String::new()));
    assert!(resize.cancelled());
    assert_eq!(engine.renderer.resolution, RenderResolution::new(320, 200));
}

#[test]
fn engine_shader_registry() {
    let mut engine: Engine<EngineSub> =
        Engine::new(BgfxRenderer::new(800, 600, WindowPlatform::Xlib, false, perspective()));
    assert_eq!(engine.get_shader(0).err(), Some(ShaderError::NotFound));
    let id = engine.add_shader(ShaderContainer::Bgfx(BgfxShaderContainer::new(vec![], vec![])));
    assert_eq!(id, 0);
    assert!(!engine.get_shader(id).unwrap().loaded());
    let ctx = ShaderContainerLoadContext::Bgfx(BgfxShaderContainerLoadContext { program: ProgramHandle { idx: 1 } });
    assert!(engine.load_shader(id, ctx));
    assert!(engine.get_shader(id).unwrap().loaded());
    assert_eq!(engine.set_debug(true), BackendCommand::SetDebug { text: true });
    assert!(engine.renderer.debug);
    engine.update_resolution(10, 20);
    assert_eq!(engine.renderer.resolution, RenderResolution::new(10, 20));
    assert!(engine.get_scene("default".to_string()).is_ok());
}

#[test]
fn engine_init_fails_on_unsupported_platform() {
    let mut engine: Engine<EngineSub> =
        Engine::new(BgfxRenderer::new(800, 600, WindowPlatform::Unsupported, false, perspective()));
    assert_eq!(engine.init(), Err(RendererError::UnsupportedPlatform));
    assert!(engine.renderer.scene.is_none());
}

