use vstd::prelude::*;

use crate::chunk::Chunk;
use crate::geometry::{ChunkCoordinate, Point3};
use crate::manager::SceneManager;
use crate::object::SceneObject;
use crate::scene::ChunkError;
use crate::shader::{ShaderContainer, ShaderManager};

verus! {

/// The color the backend clears each view to.
pub const CLEAR_COLOR: u32 = 0x103030ff;

/// One line of the debug overlay, shown as "key: value".
pub struct DebugLine {
    pub key: String,
    pub value: String,
}

impl DebugLine {
    pub fn new(key: String, value: String) -> (r: Self)
        ensures
            r.key@ == key@,
            r.value@ == value@,
    {
        DebugLine { key, value }
    }
}

/// The lines of the debug overlay, top to bottom.
pub struct TextDebugData {
    pub lines: Vec<DebugLine>,
}

impl TextDebugData {
    pub fn new() -> (r: Self)
        ensures
            r.lines@.len() == 0,
    {
        TextDebugData { lines: Vec::new() }
    }

    pub fn add_line(&mut self, line: DebugLine)
        ensures
            final(self).lines@ == old(self).lines@.push(line),
    {
        self.lines.push(line);
    }
}

/// Projection settings: the viewport size, the vertical field of view in
/// thousandths of a degree, and the near and far planes in thousandths of a
/// world unit.
#[derive(Clone, Copy, Debug, PartialEq, Eq, Structural)]
pub struct RenderPerspective {
    pub width: u32,
    pub height: u32,
    pub fov: u32,
    pub near: u32,
    pub far: u32,
}

impl RenderPerspective {
    pub fn new(width: u32, height: u32, fov: u32, near: u32, far: u32) -> (r: Self)
        ensures
            r == (RenderPerspective { width, height, fov, near, far }),
    {
        RenderPerspective { width, height, fov, near, far }
    }
}

/// A camera: where it stands, where it looks, and which way is up.
#[derive(Clone, Copy, Debug, PartialEq, Eq, Structural)]
pub struct RenderView {
    pub eye: Point3,
    pub at: Point3,
    pub up: Point3,
}

impl RenderView {
    pub fn new(eye: Point3, at: Point3, up: Point3) -> (r: Self)
        ensures
            r.eye == eye,
            r.at == at,
            r.up == up,
    {
        RenderView { eye, at, up }
    }

    pub fn set_eye(&mut self, eye: Point3)
        ensures
            *final(self) == (RenderView { eye, ..*old(self) }),
    {
        self.eye = eye;
    }

    pub fn set_at(&mut self, at: Point3)
        ensures
            *final(self) == (RenderView { at, ..*old(self) }),
    {
        self.at = at;
    }

    pub fn set_up(&mut self, up: Point3)
        ensures
            *final(self) == (RenderView { up, ..*old(self) }),
    {
        self.up = up;
    }
}

/// A surface size in pixels.
#[derive(Clone, Copy, Debug, PartialEq, Eq, Structural)]
pub struct RenderResolution {
    pub width: u32,
    pub height: u32,
}

impl RenderResolution {
    pub fn new(width: u32, height: u32) -> (r: Self)
        ensures
            r == (RenderResolution { width, height }),
    {
        RenderResolution { width, height }
    }

    pub fn update(&mut self, width: u32, height: u32)
        ensures
            *final(self) == (RenderResolution { width, height }),
    {
        self.width = width;
        self.height = height;
    }

    /// Takes over the size of `other`.
    pub fn from(&mut self, other: &Self)
        ensures
            *final(self) == *other,
    {
        self.width = other.width;
        self.height = other.height;
    }
}

/// The kind of native window the backend is asked to draw into.
#[derive(Clone, Copy, Debug, PartialEq, Eq, Structural)]
pub enum WindowPlatform {
    Win32,
    AppKit,
    Xlib,
    Wayland,
    Unsupported,
}

/// Where the renderer stands in its life cycle.
#[derive(Clone, Copy, Debug, PartialEq, Eq, Structural)]
pub enum RendererStatus {
    Uninitialized,
    Ready,
    Stopped,
}

#[derive(Clone, Copy, Debug, PartialEq, Eq, Structural)]
pub enum RendererError {
    /// The window belongs to a platform the backend cannot draw on.
    UnsupportedPlatform,
}

/// One call for the graphics backend to make, in order.
#[derive(Clone, Copy, Debug, PartialEq, Eq, Structural)]
pub enum BackendCommand {
    /// Set up the backend on the window at the given size.
    Init { width: u32, height: u32, platform: WindowPlatform },
    /// Switch the on-screen text overlay on or off.
    SetDebug { text: bool },
    /// Clear color and depth of the view to `rgba` each frame.
    SetViewClear { rgba: u32 },
    /// Resize the backend's surface.
    Reset { width: u32, height: u32 },
    DebugTextClear,
    SetViewRect { width: u32, height: u32 },
    /// Compute view and projection from the camera and the perspective.
    SetViewTransform { view: RenderView, perspective: RenderPerspective },
    /// Build the program of this shader now and record it with the shader manager.
    LoadShader { shader: i32 },
    /// Draw object `object` of chunk `chunk` with `shader`, moved by `translation`.
    DrawColored { chunk: ChunkCoordinate, object: usize, shader: i32, translation: Point3 },
    /// Print debug line `row` on text row `row`.
    DebugText { row: usize },
    Touch,
    Frame,
    Shutdown,
}

/// Why a frame drew nothing.
#[derive(Clone, Copy, Debug, PartialEq, Eq, Structural)]
pub enum FrameSkip {
    NotReady,
    NoScene,
    SceneNotFound,
    NoChunk(ChunkError),
}

/// The backend calls of one frame, and why it stopped short, if it did.
pub struct FramePlan {
    pub commands: Vec<BackendCommand>,
    pub skipped: Option<FrameSkip>,
}

/// The renderer's state: sizes, life cycle, debug overlay, perspective and the
/// name of the scene it draws. Its operations return the backend calls to make.
pub struct BgfxRenderer {
    pub resolution: RenderResolution,
    pub old_resolution: RenderResolution,
    pub surface: WindowPlatform,
    pub status: RendererStatus,
    pub debug: bool,
    pub scene: Option<String>,
    pub debug_data: Option<TextDebugData>,
    pub perspective: RenderPerspective,
}

/// A reset when the size differs from the one last applied.
pub open spec fn reset_commands(r: BgfxRenderer) -> Seq<BackendCommand> {
    if r.resolution != r.old_resolution {
        seq![BackendCommand::Reset { width: r.resolution.width, height: r.resolution.height }]
    } else {
        seq![]
    }
}

pub open spec fn frame_prelude(r: BgfxRenderer) -> Seq<BackendCommand> {
    reset_commands(r) + seq![
        BackendCommand::DebugTextClear,
        BackendCommand::SetViewRect { width: r.resolution.width, height: r.resolution.height },
    ]
}

/// Which shaders are loaded, by id.
pub open spec fn initial_loaded(shaders: Seq<ShaderContainer>) -> Seq<bool> {
    Seq::new(shaders.len(), |i: int| shaders[i].is_loaded())
}

/// The calls that draw `objs`, in order: each colored object with a known
/// shader is drawn, preceded by a load of its shader the first time an
/// unloaded one is met. Also gives which shaders are loaded afterwards.
pub open spec fn object_commands(objs: Seq<SceneObject>, chunk: ChunkCoordinate, loaded: Seq<bool>) -> (
    Seq<BackendCommand>,
    Seq<bool>,
)
    decreases objs.len(),
{
    if objs.len() == 0 {
        (seq![], loaded)
    } else {
        let (cmds, l) = object_commands(objs.drop_last(), chunk, loaded);
        let o = objs.last();
        let id = o.shader_id();
        if o is Colored && 0 <= id < l.len() {
            let draw = BackendCommand::DrawColored {
                chunk,
                object: (objs.len() - 1) as usize,
                shader: id,
                translation: o.translation(),
            };
            if l[id as int] {
                (cmds.push(draw), l)
            } else {
                (cmds.push(BackendCommand::LoadShader { shader: id }).push(draw), l.update(id as int, true))
            }
        } else {
            (cmds, l)
        }
    }
}

pub open spec fn debug_commands(n: nat) -> Seq<BackendCommand> {
    Seq::new(n, |i: int| BackendCommand::DebugText { row: i as usize })
}

/// The overlay: one text row per debug line, when debugging is on.
pub open spec fn overlay(r: BgfxRenderer) -> Seq<BackendCommand> {
    match r.debug_data {
        Some(d) => if r.debug {
            debug_commands(d.lines@.len())
        } else {
            seq![]
        },
        None => seq![],
    }
}

/// The calls of one render cycle and why it stopped short, if it did.
pub open spec fn render_plan(r: BgfxRenderer, scenes: SceneManager, shaders: ShaderManager) -> (
    Seq<BackendCommand>,
    Option<FrameSkip>,
) {
    if r.status != RendererStatus::Ready {
        (seq![], Some(FrameSkip::NotReady))
    } else {
        match r.scene {
            None => (frame_prelude(r), Some(FrameSkip::NoScene)),
            Some(name) => match scenes.named(name@) {
                None => (frame_prelude(r), Some(FrameSkip::SceneNotFound)),
                Some(scene) => {
                    let pre = frame_prelude(r).push(
                        BackendCommand::SetViewTransform { view: scene.camera, perspective: r.perspective },
                    );
                    match scene.current_lookup() {
                        Err(e) => (pre, Some(FrameSkip::NoChunk(e))),
                        Ok(chunk) => (
                            pre + object_commands(
                                chunk.objects@,
                                chunk.coordinates,
                                initial_loaded(shaders.shaders@),
                            ).0 + overlay(r) + seq![BackendCommand::Touch, BackendCommand::Frame],
                            None,
                        ),
                    }
                },
            },
        }
    }
}

/// The renderer after a render cycle: the size in use is recorded as applied.
pub open spec fn after_cycle(r: BgfxRenderer) -> BgfxRenderer {
    if r.status == RendererStatus::Ready {
        BgfxRenderer { old_resolution: r.resolution, ..r }
    } else {
        r
    }
}

/// The renderer after `update_surface_resolution(width, height)`.
pub open spec fn resolution_updated(before: BgfxRenderer, after: BgfxRenderer, width: u32, height: u32) -> bool {
    after == BgfxRenderer { resolution: RenderResolution { width, height }, ..before }
}

fn initial_loaded_flags(shaders: &ShaderManager) -> (r: Vec<bool>)
    ensures
        r@ == initial_loaded(shaders.shaders@),
{
    let n = shaders.shaders.len();
    let mut flags: Vec<bool> = Vec::new();
    let mut i: usize = 0;
    while i < n
        invariant
            n == shaders.shaders@.len(),
            i <= n,
            flags@.len() == i,
            forall|j: int| 0 <= j < i ==> flags@[j] == (#[trigger] shaders.shaders@[j]).is_loaded(),
        decreases n - i,
    {
        flags.push(shaders.shaders[i].loaded());
        i = i + 1;
    }
    assert(flags@ =~= initial_loaded(shaders.shaders@));
    flags
}

fn plan_objects(chunk: &Chunk, shaders: &ShaderManager, cmds: &mut Vec<BackendCommand>)
    ensures
        final(cmds)@ == old(cmds)@ + object_commands(
            chunk.objects@,
            chunk.coordinates,
            initial_loaded(shaders.shaders@),
        ).0,
{
    let ghost base = cmds@;
    let ghost init = initial_loaded(shaders.shaders@);
    let ghost objs = chunk.objects@;
    let mut loaded = initial_loaded_flags(shaders);
    let n = chunk.objects.len();
    let mut i: usize = 0;
    assert(objs.take(0) =~= Seq::<SceneObject>::empty());
    assert(base + Seq::<BackendCommand>::empty() =~= base);
    while i < n
        invariant
            n == objs.len(),
            objs == chunk.objects@,
            i <= n,
            cmds@ == base + object_commands(objs.take(i as int), chunk.coordinates, init).0,
            loaded@ == object_commands(objs.take(i as int), chunk.coordinates, init).1,
            loaded@.len() == init.len(),
        decreases n - i,
    {
        let ghost prev = object_commands(objs.take(i as int), chunk.coordinates, init);
        assert(objs.take(i as int + 1).drop_last() =~= objs.take(i as int));
        assert(objs.take(i as int + 1).last() == objs[i as int]);
        let object = &chunk.objects[i];
        let id = object.shader_container();
        match object {
            SceneObject::Colored(_) => {
                if 0 <= id && (id as usize) < loaded.len() {
                    let draw = BackendCommand::DrawColored {
                        chunk: chunk.coordinates,
                        object: i,
                        shader: id,
                        translation: object.coordinates(),
                    };
                    if !loaded[id as usize] {
                        cmds.push(BackendCommand::LoadShader { shader: id });
                        loaded.set(id as usize, true);
                    }
                    cmds.push(draw);
                    assert(cmds@ =~= base + object_commands(
                        objs.take(i as int + 1),
                        chunk.coordinates,
                        init,
                    ).0);
                } else {
                }
            },
            _ => {},
        }
        i = i + 1;
    }
    assert(objs.take(n as int) =~= objs);
}

fn plan_overlay(r: &BgfxRenderer, cmds: &mut Vec<BackendCommand>)
    ensures
        final(cmds)@ == old(cmds)@ + overlay(*r),
{
    match &r.debug_data {
        Some(d) => {
            if r.debug {
                let ghost base = cmds@;
                let n = d.lines.len();
                let mut i: usize = 0;
                assert(base + debug_commands(0) =~= base);
                while i < n
                    invariant
                        n == d.lines@.len(),
                        i <= n,
                        cmds@ == base + debug_commands(i as nat),
                    decreases n - i,
                {
                    cmds.push(BackendCommand::DebugText { row: i });
                    assert(debug_commands((i + 1) as nat) =~= debug_commands(i as nat).push(
                        BackendCommand::DebugText { row: i },
                    ));
                    assert(cmds@ =~= base + debug_commands((i + 1) as nat));
                    i = i + 1;
                }
            } else {
                assert(cmds@ + overlay(*r) =~= cmds@);
            }
        },
        None => {
            assert(cmds@ + overlay(*r) =~= cmds@);
        },
    }
}

impl BgfxRenderer {
    pub fn new(
        width: u32,
        height: u32,
        surface: WindowPlatform,
        debug: bool,
        perspective: RenderPerspective,
    ) -> (r: Self)
        ensures
            r.resolution == (RenderResolution { width, height }),
            r.old_resolution == (RenderResolution { width: 0, height: 0 }),
            r.surface == surface,
            r.status == RendererStatus::Uninitialized,
            r.debug == debug,
            r.scene is None,
            r.debug_data is None,
            r.perspective == perspective,
    {
        BgfxRenderer {
            resolution: RenderResolution::new(width, height),
            old_resolution: RenderResolution::new(0, 0),
            surface,
            status: RendererStatus::Uninitialized,
            debug,
            scene: None,
            debug_data: None,
            perspective,
        }
    }

    /// Sets the backend up on the window. A window of an unsupported platform
    /// is refused and the renderer stays as it was; otherwise the backend is
    /// initialised at the current size, the overlay switched off and the clear
    /// color set, and the renderer is ready.
    pub fn init(&mut self) -> (r: Result<Vec<BackendCommand>, RendererError>)
        ensures
            old(self).surface == WindowPlatform::Unsupported ==> r == Err::<
                Vec<BackendCommand>,
                RendererError,
            >(RendererError::UnsupportedPlatform) && *final(self) == *old(self),
            old(self).surface != WindowPlatform::Unsupported ==> r is Ok && r.unwrap()@ == seq![
                BackendCommand::Init {
                    width: old(self).resolution.width,
                    height: old(self).resolution.height,
                    platform: old(self).surface,
                },
                BackendCommand::SetDebug { text: false },
                BackendCommand::SetViewClear { rgba: CLEAR_COLOR },
            ] && *final(self) == (BgfxRenderer { status: RendererStatus::Ready, ..*old(self) }),
    {
        match self.surface {
            WindowPlatform::Unsupported => Err(RendererError::UnsupportedPlatform),
            _ => {
                let mut cmds: Vec<BackendCommand> = Vec::new();
                cmds.push(
                    BackendCommand::Init {
                        width: self.resolution.width,
                        height: self.resolution.height,
                        platform: self.surface,
                    },
                );
                cmds.push(BackendCommand::SetDebug { text: false });
                cmds.push(self.clean_up());
                self.status = RendererStatus::Ready;
                Ok(cmds)
            },
        }
    }

    /// One frame. A change of size since the last frame resets the surface
    /// once; then the view is set from the active scene's camera, each object
    /// of the chunk under the camera is drawn in order (its shader loaded on
    /// first use), the debug lines are printed, and the frame is presented. A
    /// missing scene or chunk ends the plan early and the frame is skipped.
    pub fn do_render_cycle(&mut self, scenes: &SceneManager, shaders: &ShaderManager) -> (r: FramePlan)
        ensures
            (r.commands@, r.skipped) == render_plan(*old(self), *scenes, *shaders),
            *final(self) == after_cycle(*old(self)),
    {
        let mut cmds: Vec<BackendCommand> = Vec::new();
        if self.status != RendererStatus::Ready {
            return FramePlan { commands: cmds, skipped: Some(FrameSkip::NotReady) };
        }
        if self.resolution != self.old_resolution {
            cmds.push(
                BackendCommand::Reset { width: self.resolution.width, height: self.resolution.height },
            );
            self.old_resolution.from(&self.resolution);
        }
        cmds.push(BackendCommand::DebugTextClear);
        cmds.push(
            BackendCommand::SetViewRect { width: self.resolution.width, height: self.resolution.height },
        );
        assert(cmds@ =~= frame_prelude(*old(self)));
        let name = match &self.scene {
            Some(name) => name.clone(),
            None => {
                return FramePlan { commands: cmds, skipped: Some(FrameSkip::NoScene) };
            },
        };
        let scene = match scenes.get_scene(name) {
            Ok(scene) => scene,
            Err(_) => {
                return FramePlan { commands: cmds, skipped: Some(FrameSkip::SceneNotFound) };
            },
        };
        cmds.push(BackendCommand::SetViewTransform { view: scene.camera, perspective: self.perspective });
        let chunk = match scene.get_current_chunk() {
            Ok(chunk) => chunk,
            Err(e) => {
                return FramePlan { commands: cmds, skipped: Some(FrameSkip::NoChunk(e)) };
            },
        };
        plan_objects(chunk, shaders, &mut cmds);
        plan_overlay(self, &mut cmds);
        cmds.push(BackendCommand::Touch);
        cmds.push(BackendCommand::Frame);
        proof {
            let pre = frame_prelude(*old(self)).push(
                BackendCommand::SetViewTransform { view: scene.camera, perspective: self.perspective },
            );
            let body = object_commands(
                chunk.objects@,
                chunk.coordinates,
                initial_loaded(shaders.shaders@),
            ).0;
            assert(overlay(*self) == overlay(*old(self)));
            assert(cmds@ =~= pre + body + overlay(*old(self)) + seq![
                BackendCommand::Touch,
                BackendCommand::Frame,
            ]);
        }
        FramePlan { commands: cmds, skipped: None }
    }

    /// Stops the backend.
    pub fn shutdown(&mut self) -> (r: Vec<BackendCommand>)
        ensures
            r@ == seq![BackendCommand::Shutdown],
            *final(self) == (BgfxRenderer { status: RendererStatus::Stopped, ..*old(self) }),
    {
        self.status = RendererStatus::Stopped;
        let mut cmds: Vec<BackendCommand> = Vec::new();
        cmds.push(BackendCommand::Shutdown);
        cmds
    }

    /// Makes `scene` the scene drawn from the next frame on.
    pub fn set_scene(&mut self, scene: String)
        ensures
            final(self).scene is Some,
            final(self).scene.unwrap()@ == scene@,
            *final(self) == (BgfxRenderer { scene: final(self).scene, ..*old(self) }),
    {
        self.scene = Some(scene);
    }

    pub fn set_debug_data(&mut self, data: TextDebugData)
        ensures
            *final(self) == (BgfxRenderer { debug_data: Some(data), ..*old(self) }),
    {
        self.debug_data = Some(data);
    }

    /// Switches the debug overlay, and returns the backend call that does so.
    pub fn do_debug(&mut self, debug: bool) -> (r: BackendCommand)
        ensures
            r == (BackendCommand::SetDebug { text: debug }),
            *final(self) == (BgfxRenderer { debug, ..*old(self) }),
    {
        self.debug = debug;
        BackendCommand::SetDebug { text: debug }
    }

    /// The backend call that sets the clear color.
    pub fn clean_up(&self) -> (r: BackendCommand)
        ensures
            r == (BackendCommand::SetViewClear { rgba: CLEAR_COLOR }),
    {
        BackendCommand::SetViewClear { rgba: CLEAR_COLOR }
    }

    /// Records a new surface size; the backend is reset on the next frame.
    pub fn update_surface_resolution(&mut self, width: u32, height: u32)
        ensures
            resolution_updated(*old(self), *final(self), width, height),
    {
        self.resolution.update(width, height);
    }

    pub fn update_perspective(&mut self, perspective: RenderPerspective)
        ensures
            *final(self) == (BgfxRenderer { perspective, ..*old(self) }),
    {
        self.perspective = perspective;
    }
}

/// How many surface resets a sequence of backend calls holds.
pub open spec fn reset_count(s: Seq<BackendCommand>) -> nat
    decreases s.len(),
{
    if s.len() == 0 {
        0
    } else {
        reset_count(s.drop_last()) + if s.last() is Reset {
            1nat
        } else {
            0nat
        }
    }
}

pub proof fn lemma_reset_count_push(s: Seq<BackendCommand>, x: BackendCommand)
    ensures
        reset_count(s.push(x)) == reset_count(s) + if x is Reset {
            1nat
        } else {
            0nat
        },
{
    assert(s.push(x).drop_last() =~= s);
}

pub proof fn lemma_reset_count_concat(a: Seq<BackendCommand>, b: Seq<BackendCommand>)
    ensures
        reset_count(a + b) == reset_count(a) + reset_count(b),
    decreases b.len(),
{
    if b.len() == 0 {
        assert(a + b =~= a);
    } else {
        lemma_reset_count_concat(a, b.drop_last());
        assert((a + b).drop_last() =~= a + b.drop_last());
    }
}

pub proof fn lemma_objects_never_reset(objs: Seq<SceneObject>, chunk: ChunkCoordinate, loaded: Seq<bool>)
    ensures
        reset_count(object_commands(objs, chunk, loaded).0) == 0,
    decreases objs.len(),
{
    if objs.len() > 0 {
        lemma_objects_never_reset(objs.drop_last(), chunk, loaded);
        let cmds = object_commands(objs.drop_last(), chunk, loaded).0;
        let l = object_commands(objs.drop_last(), chunk, loaded).1;
        let o = objs.last();
        let id = o.shader_id();
        if o is Colored && 0 <= id < l.len() {
            let draw = BackendCommand::DrawColored {
                chunk,
                object: (objs.len() - 1) as usize,
                shader: id,
                translation: o.translation(),
            };
            let load = BackendCommand::LoadShader { shader: id };
            lemma_reset_count_push(cmds, draw);
            lemma_reset_count_push(cmds, load);
            lemma_reset_count_push(cmds.push(load), draw);
        }
    }
}

pub proof fn lemma_overlay_never_resets(n: nat)
    ensures
        reset_count(debug_commands(n)) == 0,
    decreases n,
{
    if n > 0 {
        lemma_overlay_never_resets((n - 1) as nat);
        let last = BackendCommand::DebugText { row: (n - 1) as usize };
        assert(debug_commands(n) =~= debug_commands((n - 1) as nat).push(last));
        lemma_reset_count_push(debug_commands((n - 1) as nat), last);
    }
}

/// The resets of a render cycle are those of its size check and no others.
pub proof fn lemma_plan_resets(r: BgfxRenderer, scenes: SceneManager, shaders: ShaderManager)
    ensures
        reset_count(render_plan(r, scenes, shaders).0) == if r.status == RendererStatus::Ready {
            reset_count(reset_commands(r))
        } else {
            0
        },
{
    let tail = seq![
        BackendCommand::DebugTextClear,
        BackendCommand::SetViewRect { width: r.resolution.width, height: r.resolution.height },
    ];
    lemma_reset_count_push(Seq::empty(), BackendCommand::DebugTextClear);
    lemma_reset_count_push(seq![BackendCommand::DebugTextClear], tail.last());
    assert(tail =~= seq![BackendCommand::DebugTextClear].push(tail.last()));
    assert(reset_count(tail) == 0);
    lemma_reset_count_concat(reset_commands(r), tail);
    if r.status == RendererStatus::Ready {
        if let Some(name) = r.scene {
            if let Some(scene) = scenes.named(name@) {
                let view = BackendCommand::SetViewTransform { view: scene.camera, perspective: r.perspective };
                let pre = frame_prelude(r).push(view);
                lemma_reset_count_push(frame_prelude(r), view);
                if let Ok(chunk) = scene.current_lookup() {
                    let body = object_commands(
                        chunk.objects@,
                        chunk.coordinates,
                        initial_loaded(shaders.shaders@),
                    ).0;
                    lemma_objects_never_reset(
                        chunk.objects@,
                        chunk.coordinates,
                        initial_loaded(shaders.shaders@),
                    );
                    let ov = overlay(r);
                    match r.debug_data {
                        Some(d) => lemma_overlay_never_resets(d.lines@.len()),
                        None => {},
                    }
                    assert(reset_count(ov) == 0);
                    let end = seq![BackendCommand::Touch, BackendCommand::Frame];
                    lemma_reset_count_push(Seq::empty(), BackendCommand::Touch);
                    lemma_reset_count_push(seq![BackendCommand::Touch], BackendCommand::Frame);
                    assert(end =~= seq![BackendCommand::Touch].push(BackendCommand::Frame));
                    lemma_reset_count_concat(pre, body);
                    lemma_reset_count_concat(pre + body, ov);
                    lemma_reset_count_concat(pre + body + ov, end);
                }
            }
        }
    }
}

/// Size changes coalesce: recording the same size twice before a frame makes
/// that frame reset the surface at most once (exactly when the size differs
/// from the one last applied), and the frames after it not at all until the
/// size changes again.
pub proof fn lemma_resolution_change_coalesces(
    r0: BgfxRenderer,
    r1: BgfxRenderer,
    r2: BgfxRenderer,
    width: u32,
    height: u32,
    scenes: SceneManager,
    shaders: ShaderManager,
)
    requires
        resolution_updated(r0, r1, width, height),
        resolution_updated(r1, r2, width, height),
    ensures
        reset_count(render_plan(r2, scenes, shaders).0) == if r2.status == RendererStatus::Ready
            && (RenderResolution { width, height }) != r0.old_resolution {
            1nat
        } else {
            0nat
        },
        r2.status == RendererStatus::Ready ==> reset_count(
            render_plan(after_cycle(r2), scenes, shaders).0,
        ) == 0,
        r2.status == RendererStatus::Ready ==> after_cycle(after_cycle(r2)) == after_cycle(r2),
{
    lemma_plan_resets(r2, scenes, shaders);
    lemma_plan_resets(after_cycle(r2), scenes, shaders);
    lemma_reset_count_push(Seq::empty(), BackendCommand::Reset { width, height });
    assert(seq![BackendCommand::Reset { width, height }] =~= Seq::<BackendCommand>::empty().push(
        BackendCommand::Reset { width, height },
    ));
}

} // verus!
