use vstd::prelude::*;

verus! {

/// The backend's handle of a linked GPU program.
#[derive(Clone, Copy, Debug, PartialEq, Eq, Structural)]
pub struct ProgramHandle {
    pub idx: u16,
}

/// What loading a native-backend shader produced: the program built from it.
#[derive(Clone, Copy, Debug, PartialEq, Eq, Structural)]
pub struct BgfxShaderContainerLoadContext {
    pub program: ProgramHandle,
}

/// What loading an alternate-backend shader produced: its render pipeline.
#[derive(Clone, Copy, Debug, PartialEq, Eq, Structural)]
pub struct WgpuShaderLoadContext {
    pub pipeline: u32,
}

/// The outcome of building a shader on one of the backends.
#[derive(Clone, Copy, Debug, PartialEq, Eq, Structural)]
pub enum ShaderContainerLoadContext {
    Bgfx(BgfxShaderContainerLoadContext),
    Wgpu(WgpuShaderLoadContext),
}

/// Vertex and pixel bytecode of a native-backend shader, and once loaded the
/// program built from it.
pub struct BgfxShaderContainer {
    pub loaded: bool,
    pub pixel_raw: Vec<u8>,
    pub vertex_raw: Vec<u8>,
    pub program: Option<ProgramHandle>,
}

/// Source text of an alternate-backend shader, and once loaded its pipeline.
pub struct WgpuShaderContainer {
    pub source_string: String,
    pub loaded: bool,
    pub pipeline: Option<u32>,
}

/// A GPU program on one of the two backends; loaded lazily, on first use.
pub enum ShaderContainer {
    Bgfx(BgfxShaderContainer),
    Wgpu(WgpuShaderContainer),
}

impl BgfxShaderContainer {
    pub fn new(pixel_raw: Vec<u8>, vertex_raw: Vec<u8>) -> (r: Self)
        ensures
            !r.loaded,
            r.pixel_raw@ == pixel_raw@,
            r.vertex_raw@ == vertex_raw@,
            r.program is None,
    {
        BgfxShaderContainer { loaded: false, pixel_raw, vertex_raw, program: None }
    }
}

impl WgpuShaderContainer {
    pub fn new(source_string: String) -> (r: Self)
        ensures
            !r.loaded,
            r.source_string@ == source_string@,
            r.pipeline is None,
    {
        WgpuShaderContainer { source_string, loaded: false, pipeline: None }
    }

    /// The render pipeline, once the shader is loaded.
    pub fn get_pipeline_layout(&self) -> (r: Option<u32>)
        ensures
            r == if self.loaded {
                self.pipeline
            } else {
                None
            },
    {
        if self.loaded {
            self.pipeline
        } else {
            None
        }
    }
}

/// The load outcome fits the container's backend.
pub open spec fn matches_backend(s: ShaderContainer, context: ShaderContainerLoadContext) -> bool {
    match (s, context) {
        (ShaderContainer::Bgfx(_), ShaderContainerLoadContext::Bgfx(_)) => true,
        (ShaderContainer::Wgpu(_), ShaderContainerLoadContext::Wgpu(_)) => true,
        _ => false,
    }
}

/// The container after its backend object was recorded.
pub open spec fn loaded_with(s: ShaderContainer, context: ShaderContainerLoadContext) -> ShaderContainer {
    match (s, context) {
        (ShaderContainer::Bgfx(b), ShaderContainerLoadContext::Bgfx(c)) => ShaderContainer::Bgfx(
            BgfxShaderContainer { loaded: true, program: Some(c.program), ..b },
        ),
        (ShaderContainer::Wgpu(w), ShaderContainerLoadContext::Wgpu(c)) => ShaderContainer::Wgpu(
            WgpuShaderContainer { loaded: true, pipeline: Some(c.pipeline), ..w },
        ),
        _ => s,
    }
}

impl ShaderContainer {
    pub open spec fn is_loaded(&self) -> bool {
        match self {
            ShaderContainer::Bgfx(b) => b.loaded,
            ShaderContainer::Wgpu(w) => w.loaded,
        }
    }

    pub fn loaded(&self) -> (r: bool)
        ensures
            r == self.is_loaded(),
    {
        match self {
            ShaderContainer::Bgfx(b) => b.loaded,
            ShaderContainer::Wgpu(w) => w.loaded,
        }
    }

    /// Records the backend object built for this shader. A context of the
    /// other backend is refused and leaves the container as it was. Callers
    /// check `loaded()` first: loading twice would build the program twice.
    pub fn load(&mut self, context: ShaderContainerLoadContext) -> (r: bool)
        requires
            !old(self).is_loaded(),
        ensures
            r == matches_backend(*old(self), context),
            *final(self) == loaded_with(*old(self), context),
    {
        match (self, context) {
            (ShaderContainer::Bgfx(b), ShaderContainerLoadContext::Bgfx(c)) => {
                b.program = Some(c.program);
                b.loaded = true;
                true
            },
            (ShaderContainer::Wgpu(w), ShaderContainerLoadContext::Wgpu(c)) => {
                w.pipeline = Some(c.pipeline);
                w.loaded = true;
                true
            },
            _ => false,
        }
    }

    /// The program to bind, once a native-backend shader is loaded.
    pub fn program(&self) -> (r: Option<ProgramHandle>)
        ensures
            r == match self {
                ShaderContainer::Bgfx(b) => b.program,
                ShaderContainer::Wgpu(_) => None::<ProgramHandle>,
            },
    {
        match self {
            ShaderContainer::Bgfx(b) => b.program,
            ShaderContainer::Wgpu(_) => None,
        }
    }
}

/// A registry of shaders by dense integer id, in the order of registration.
pub struct ShaderManager {
    pub shaders: Vec<ShaderContainer>,
}

/// The shader registered under `id`, if any.
pub open spec fn shader_at(m: ShaderManager, id: i32) -> Option<ShaderContainer> {
    if 0 <= id < m.shaders@.len() {
        Some(m.shaders@[id as int])
    } else {
        None
    }
}

/// The relation between a manager before and after `add_shader(c)` returned `id`.
pub open spec fn shader_added(before: ShaderManager, after: ShaderManager, c: ShaderContainer, id: i32) -> bool {
    &&& id == before.shaders@.len()
    &&& after.shaders@ == before.shaders@.push(c)
}

/// The relation between a manager before and after `load_shader(id, context)`
/// returned `done`.
pub open spec fn shader_loaded(
    before: ShaderManager,
    after: ShaderManager,
    id: i32,
    context: ShaderContainerLoadContext,
    done: bool,
) -> bool {
    match shader_at(before, id) {
        Some(s) => if !s.is_loaded() && matches_backend(s, context) {
            done && after.shaders@ == before.shaders@.update(id as int, loaded_with(s, context))
        } else {
            !done && after.shaders@ == before.shaders@
        },
        None => !done && after.shaders@ == before.shaders@,
    }
}

impl ShaderManager {
    pub fn new() -> (r: Self)
        ensures
            r.shaders@.len() == 0,
    {
        ShaderManager { shaders: Vec::new() }
    }

    pub fn shader_count(&self) -> (r: usize)
        ensures
            r == self.shaders@.len(),
    {
        self.shaders.len()
    }

    /// Registers a shader under the next id: the number of shaders before it.
    pub fn add_shader(&mut self, shader: ShaderContainer) -> (r: i32)
        requires
            old(self).shaders@.len() < i32::MAX,
        ensures
            shader_added(*old(self), *final(self), shader, r),
    {
        let index = self.shaders.len() as i32;
        self.shaders.push(shader);
        index
    }

    pub fn get_shader(&self, index: i32) -> (r: Option<&ShaderContainer>)
        ensures
            match r {
                Some(s) => shader_at(*self, index) == Some(*s),
                None => shader_at(*self, index) is None,
            },
    {
        if index < 0 || index as usize >= self.shaders.len() {
            None
        } else {
            Some(&self.shaders[index as usize])
        }
    }

    /// Loads the shader under `index` with the backend's result, unless it is
    /// unknown, already loaded, or of the other backend.
    pub fn load_shader(&mut self, index: i32, context: ShaderContainerLoadContext) -> (r: bool)
        ensures
            shader_loaded(*old(self), *final(self), index, context, r),
    {
        if index < 0 || index as usize >= self.shaders.len() {
            return false;
        }
        let i = index as usize;
        if self.shaders[i].loaded() {
            return false;
        }
        let ghost s = self.shaders@[i as int];
        let done = self.shaders[i].load(context);
        proof {
            assert(self.shaders@ =~= old(self).shaders@.update(i as int, loaded_with(s, context)));
        }
        if !done {
            proof {
                assert(self.shaders@ =~= old(self).shaders@);
            }
        }
        done
    }
}

/// Successive registrations on an empty manager hand out the ids 0, 1, 2, ...
/// in order.
pub proof fn lemma_ids_are_dense(ms: Seq<ShaderManager>, cs: Seq<ShaderContainer>, ids: Seq<i32>)
    requires
        ms.len() == cs.len() + 1,
        ids.len() == cs.len(),
        ms[0].shaders@.len() == 0,
        forall|k: int| 0 <= k < cs.len() ==> shader_added(#[trigger] ms[k], ms[k + 1], cs[k], ids[k]),
    ensures
        forall|k: int| 0 <= k < ids.len() ==> #[trigger] ids[k] == k,
        forall|k: int| 0 <= k < ms.len() ==> (#[trigger] ms[k]).shaders@.len() == k,
    decreases cs.len(),
{
    if cs.len() > 0 {
        let n = cs.len() - 1;
        lemma_ids_are_dense(ms.drop_last(), cs.drop_last(), ids.drop_last());
        assert(shader_added(ms[n], ms[n + 1], cs[n], ids[n]));
        assert(ms.drop_last()[n] == ms[n]);
        assert forall|k: int| 0 <= k < ids.len() implies #[trigger] ids[k] == k by {
            if k < n {
                assert(ids.drop_last()[k] == ids[k]);
            }
        }
        assert forall|k: int| 0 <= k < ms.len() implies (#[trigger] ms[k]).shaders@.len() == k by {
            if k <= n {
                assert(ms.drop_last()[k] == ms[k]);
            }
        }
    }
}

/// An id that was never handed out names no shader.
pub proof fn lemma_unissued_id_absent(m: ShaderManager, id: i32)
    requires
        id < 0 || id >= m.shaders@.len(),
    ensures
        shader_at(m, id) is None,
{
}

/// A load through the manager is seen by every later lookup of that id.
pub proof fn lemma_load_is_shared(
    before: ShaderManager,
    after: ShaderManager,
    id: i32,
    context: ShaderContainerLoadContext,
)
    requires
        shader_loaded(before, after, id, context, true),
    ensures
        shader_at(after, id) is Some,
        shader_at(after, id).unwrap().is_loaded(),
{
}

} // verus!
