use vstd::prelude::*;

use crate::output::RenderParams;
use crate::rational::Rat;

verus! {

/// Why constructing the OpenGL backend failed.
#[derive(Clone, Debug, PartialEq)]
pub enum OpenGlError {
    /// The windowing layer has no GL context for this window.
    NoContext,
    /// The painter could not be initialised; the message explains why.
    CreatePainter(String),
}

/// The shader dialect the OpenGL painter is asked to use when the
/// automatically detected one is wrong for the driver.
#[derive(Clone, Copy, Debug, PartialEq, Eq, Structural)]
pub enum ShaderVersion {
    Gl120,
    Gl140,
    Es100,
    Es300,
}

/// Configuration of the OpenGL backend.
#[derive(Clone, Copy, Debug, PartialEq, Eq, Structural)]
pub struct GraphicsConfig {
    /// Whether to apply dithering to minimise banding artefacts.
    pub dithering: bool,
    /// Optional override of the detected shader dialect.
    pub shader_version: Option<ShaderVersion>,
}

impl Default for GraphicsConfig {
    /// Dithering on, no shader override.
    fn default() -> (r: GraphicsConfig)
        ensures
            r == (GraphicsConfig { dithering: true, shader_version: None::<ShaderVersion> }),
    {
        GraphicsConfig { dithering: true, shader_version: None }
    }
}

/// One GPU backend bit of the GPU-surface renderer's backend mask.
pub const BACKEND_VULKAN: u32 = 1;
pub const BACKEND_GL: u32 = 2;
pub const BACKEND_METAL: u32 = 4;
pub const BACKEND_DX12: u32 = 8;
pub const BACKEND_BROWSER_WEBGPU: u32 = 16;

/// The primary, well-supported backends of each platform family.
pub const BACKENDS_PRIMARY: u32 = 1 | 4 | 8 | 16;

/// How eagerly an adapter is picked for the GPU-surface backend.
#[derive(Clone, Copy, Debug, PartialEq, Eq, Structural)]
pub enum PowerPreference {
    NoPreference,
    LowPower,
    HighPerformance,
}

/// How presentation of finished frames is paced.
#[derive(Clone, Copy, Debug, PartialEq, Eq, Structural)]
pub enum PresentMode {
    AutoVsync,
    AutoNoVsync,
    Fifo,
    FifoRelaxed,
    Immediate,
    Mailbox,
}

/// Why acquiring the next surface frame failed.
#[derive(Clone, Copy, Debug, PartialEq, Eq, Structural)]
pub enum SurfaceErrorKind {
    /// The surface no longer matches the window (typical when minimised).
    Outdated,
    Lost,
    OutOfMemory,
    Timeout,
    Other,
}

/// What to do about a failed surface-frame acquisition.
#[derive(Clone, Copy, Debug, PartialEq, Eq, Structural)]
pub enum SurfaceErrorAction {
    /// Skip this frame and try again on the next one.
    SkipFrame,
    /// Reconfigure the surface at its current size, then skip this frame.
    Reconfigure,
}

/// The embedder's policy for surface-frame failures.
#[derive(Clone, Copy, Debug, PartialEq, Eq, Structural)]
pub enum SurfaceErrorPolicy {
    /// Always skip the failed frame; the default.
    AlwaysSkip,
    /// Always reconfigure before the next frame.
    AlwaysReconfigure,
    /// Reconfigure for an outdated surface, skip for anything else.
    ReconfigureWhenOutdated,
}

/// The action a policy picks for a surface error.
pub open spec fn spec_surface_error_action(
    policy: SurfaceErrorPolicy,
    kind: SurfaceErrorKind,
) -> SurfaceErrorAction {
    match policy {
        SurfaceErrorPolicy::AlwaysSkip => SurfaceErrorAction::SkipFrame,
        SurfaceErrorPolicy::AlwaysReconfigure => SurfaceErrorAction::Reconfigure,
        SurfaceErrorPolicy::ReconfigureWhenOutdated => if kind == SurfaceErrorKind::Outdated {
            SurfaceErrorAction::Reconfigure
        } else {
            SurfaceErrorAction::SkipFrame
        },
    }
}

pub fn surface_error_action(policy: SurfaceErrorPolicy, kind: SurfaceErrorKind) -> (r: SurfaceErrorAction)
    ensures
        r == spec_surface_error_action(policy, kind),
{
    match policy {
        SurfaceErrorPolicy::AlwaysSkip => SurfaceErrorAction::SkipFrame,
        SurfaceErrorPolicy::AlwaysReconfigure => SurfaceErrorAction::Reconfigure,
        SurfaceErrorPolicy::ReconfigureWhenOutdated => if kind == SurfaceErrorKind::Outdated {
            SurfaceErrorAction::Reconfigure
        } else {
            SurfaceErrorAction::SkipFrame
        },
    }
}

/// Configuration of the GPU-surface backend.
#[derive(Clone, Copy, Debug, PartialEq, Eq, Structural)]
pub struct WgpuConfiguration {
    /// Bitmask of GPU backends the instance may use.
    pub supported_backends: u32,
    pub present_mode: PresentMode,
    pub desired_maximum_frame_latency: Option<u32>,
    pub power_preference: PowerPreference,
    pub on_surface_error: SurfaceErrorPolicy,
}

impl WgpuConfiguration {
    /// The defaults, with any process-environment overrides (resolved by
    /// the embedder before construction) applied: every primary backend
    /// plus GL, automatic vsync, a high-performance adapter, and skipping
    /// frames whose surface failed.
    pub fn default_with(env_backends: Option<u32>, env_power: Option<PowerPreference>) -> (r: WgpuConfiguration)
        ensures
            r.supported_backends == if env_backends is Some {
                env_backends->0
            } else {
                BACKENDS_PRIMARY | BACKEND_GL
            },
            r.present_mode == PresentMode::AutoVsync,
            r.desired_maximum_frame_latency is None,
            r.power_preference == if env_power is Some {
                env_power->0
            } else {
                PowerPreference::HighPerformance
            },
            r.on_surface_error == SurfaceErrorPolicy::AlwaysSkip,
    {
        let supported_backends: u32 = match env_backends {
            Some(b) => b,
            None => BACKENDS_PRIMARY | BACKEND_GL,
        };
        let power_preference: PowerPreference = match env_power {
            Some(p) => p,
            None => PowerPreference::HighPerformance,
        };
        WgpuConfiguration {
            supported_backends,
            present_mode: PresentMode::AutoVsync,
            desired_maximum_frame_latency: None,
            power_preference,
            on_surface_error: SurfaceErrorPolicy::AlwaysSkip,
        }
    }
}

impl Default for WgpuConfiguration {
    /// The compiled-in defaults, with no environment overrides.
    fn default() -> (r: WgpuConfiguration)
        ensures
            r.supported_backends == BACKENDS_PRIMARY | BACKEND_GL,
            r.present_mode == PresentMode::AutoVsync,
            r.desired_maximum_frame_latency is None,
            r.power_preference == PowerPreference::HighPerformance,
            r.on_surface_error == SurfaceErrorPolicy::AlwaysSkip,
    {
        WgpuConfiguration::default_with(None, None)
    }
}

/// The renderer backend's bookkeeping, shared by both backend variants:
/// which textures are alive, what size the render target was built for,
/// and whether the multisample target exists yet. A backend keeps this in
/// step with its real GPU objects, so what is proved here (notably that
/// repeated identical draw passes allocate nothing) speaks about those.
pub struct RendererState {
    /// The largest texture side the backend supports; fixed at construction.
    pub max_texture_side: usize,
    /// The physical size the surface and multisample target were last built for.
    pub surface_width: u32,
    pub surface_height: u32,
    /// Whether the multisample render target has been created.
    pub msaa_target_present: bool,
    /// Identifiers of the textures currently alive, each listed once.
    pub textures: Vec<u64>,
}

impl RendererState {
    /// Each live texture is listed exactly once.
    pub open spec fn wf(self) -> bool {
        self.textures@.no_duplicates()
    }

    /// The set of live texture identifiers.
    pub open spec fn texture_set(self) -> Set<u64> {
        self.textures@.to_set()
    }

    /// A fresh backend: no target built yet, no textures.
    pub fn new(max_texture_side: usize) -> (r: RendererState)
        ensures
            r.wf(),
            r.max_texture_side == max_texture_side,
            r.surface_width == 0,
            r.surface_height == 0,
            !r.msaa_target_present,
            r.texture_set() =~= Set::<u64>::empty(),
    {
        RendererState {
            max_texture_side,
            surface_width: 0,
            surface_height: 0,
            msaa_target_present: false,
            textures: Vec::new(),
        }
    }

    /// The backend's texture-size limit, advertised to the GUI layer.
    pub fn max_texture_side(&self) -> (r: usize)
        ensures
            r == self.max_texture_side,
    {
        self.max_texture_side
    }

    /// Whether a draw pass at this physical size must rebuild the surface
    /// configuration and the multisample target first.
    pub open spec fn spec_needs_target_rebuild(self, width: u32, height: u32) -> bool {
        self.surface_width != width || self.surface_height != height || !self.msaa_target_present
    }

    /// Record that a texture is alive (creating it or updating it in place).
    pub fn set_texture(&mut self, id: u64)
        requires
            old(self).wf(),
        ensures
            final(self).wf(),
            final(self).texture_set() =~= old(self).texture_set().insert(id),
            final(self).max_texture_side == old(self).max_texture_side,
            final(self).surface_width == old(self).surface_width,
            final(self).surface_height == old(self).surface_height,
            final(self).msaa_target_present == old(self).msaa_target_present,
    {
        if !vec_contains(&self.textures, id) {
            self.textures.push(id);
            proof {
                let before = old(self).textures@;
                let after = self.textures@;
                assert forall|x: u64| after.contains(x) <==> (before.contains(x) || x == id) by {
                    if after.contains(x) {
                        let k = choose|k: int| 0 <= k < after.len() && after[k] == x;
                        if k < before.len() {
                            assert(before[k] == x);
                        }
                    }
                    if before.contains(x) {
                        let k = choose|k: int| 0 <= k < before.len() && before[k] == x;
                        assert(after[k] == x);
                    }
                    assert(after[before.len() as int] == id);
                }
                assert(after.no_duplicates()) by {
                    assert forall|p: int, q: int|
                        0 <= p < q < after.len() implies after[p] != after[q] by {
                        if q < before.len() {
                            assert(before[p] == after[p] && before[q] == after[q]);
                        } else {
                            assert(after[q] == id);
                            assert(before[p] == after[p]);
                            assert(!before.contains(id));
                        }
                    }
                }
                assert(after.to_set() =~= before.to_set().insert(id));
            }
        } else {
            proof {
                assert(self.textures@.to_set() =~= old(self).textures@.to_set().insert(id));
            }
        }
    }

    /// Record that a texture was freed; freeing an unknown identifier is a
    /// no-op, as it is for the backends.
    pub fn free_texture(&mut self, id: u64)
        requires
            old(self).wf(),
        ensures
            final(self).wf(),
            final(self).texture_set() =~= old(self).texture_set().remove(id),
            final(self).max_texture_side == old(self).max_texture_side,
            final(self).surface_width == old(self).surface_width,
            final(self).surface_height == old(self).surface_height,
            final(self).msaa_target_present == old(self).msaa_target_present,
    {
        let n = self.textures.len();
        let mut i: usize = 0;
        while i < n
            invariant
                n == self.textures@.len(),
                0 <= i <= n,
                old(self).wf(),
                *self == *old(self),
                forall|j: int| 0 <= j < i ==> self.textures@[j] != id,
            decreases n - i,
        {
            if self.textures[i] == id {
                self.textures.remove(i);
                proof {
                    let before = old(self).textures@;
                    let after = self.textures@;
                    assert(before.no_duplicates());
                    assert(before[i as int] == id);
                    assert forall|x: u64| after.contains(x) <==> (before.contains(x) && x != id) by {
                        if after.contains(x) {
                            let k = choose|k: int| 0 <= k < after.len() && after[k] == x;
                            if k < i {
                                assert(before[k] == x);
                            } else {
                                assert(before[k + 1] == x);
                            }
                            assert(before.contains(x));
                            assert(x != id);
                        }
                        if before.contains(x) && x != id {
                            let k = choose|k: int| 0 <= k < before.len() && before[k] == x;
                            if k < i {
                                assert(after[k] == x);
                            } else {
                                assert(k > i);
                                assert(after[k - 1] == x);
                            }
                            assert(after.contains(x));
                        }
                    }
                    assert(after.to_set() =~= before.to_set().remove(id));
                    assert(after.no_duplicates()) by {
                        assert forall|p: int, q: int|
                            0 <= p < q < after.len() implies after[p] != after[q] by {
                            let bp: int = if p < i { p } else { p + 1 };
                            let bq: int = if q < i { q } else { q + 1 };
                            assert(before[bp] == after[p]);
                            assert(before[bq] == after[q]);
                        }
                    }
                }
                return;
            }
            i += 1;
        }
        proof {
            assert(!old(self).textures@.contains(id)) by {
                if old(self).textures@.contains(id) {
                    let k = choose|k: int|
                        0 <= k < old(self).textures@.len() && old(self).textures@[k] == id;
                    assert(self.textures@[k] != id);
                }
            }
            assert(self.textures@.to_set() =~= old(self).textures@.to_set().remove(id));
        }
    }

    /// The bookkeeping after a draw pass at the given size with no texture
    /// deltas: the target matches that size and exists; nothing else moves.
    pub open spec fn spec_after_plain_render(self, width: u32, height: u32) -> RendererState {
        RendererState {
            surface_width: width,
            surface_height: height,
            msaa_target_present: true,
            ..self
        }
    }

    /// One draw pass: apply the texture additions, rebuild the render
    /// target if the size changed or it does not exist yet, then apply the
    /// texture frees. Returns whether the target had to be rebuilt.
    pub fn render(&mut self, params: RenderParams, set_textures: &Vec<u64>, free_textures: &Vec<u64>) -> (rebuilt: bool)
        requires
            old(self).wf(),
        ensures
            final(self).wf(),
            rebuilt == old(self).spec_needs_target_rebuild(
                params.physical_size.width,
                params.physical_size.height,
            ),
            final(self).max_texture_side == old(self).max_texture_side,
            final(self).surface_width == params.physical_size.width,
            final(self).surface_height == params.physical_size.height,
            final(self).msaa_target_present,
            forall|x: u64|
                final(self).texture_set().contains(x) <==> ((old(self).texture_set().contains(x)
                    || set_textures@.contains(x)) && !free_textures@.contains(x)),
            set_textures@.len() == 0 && free_textures@.len() == 0 ==> final(self).textures@
                == old(self).textures@,
    {
        let mut i: usize = 0;
        let n_set = set_textures.len();
        while i < n_set
            invariant
                old(self).wf(),
                self.wf(),
                n_set == set_textures@.len(),
                0 <= i <= n_set,
                self.max_texture_side == old(self).max_texture_side,
                self.surface_width == old(self).surface_width,
                self.surface_height == old(self).surface_height,
                self.msaa_target_present == old(self).msaa_target_present,
                n_set == 0 ==> self.textures@ == old(self).textures@,
                forall|x: u64|
                    self.texture_set().contains(x) <==> (old(self).texture_set().contains(x)
                        || set_textures@.subrange(0, i as int).contains(x)),
            decreases n_set - i,
        {
            let ghost prev = *self;
            let id = set_textures[i];
            self.set_texture(id);
            proof {
                let pre = set_textures@.subrange(0, i as int);
                let post = set_textures@.subrange(0, i + 1int);
                assert forall|x: u64| post.contains(x) <==> (pre.contains(x) || x == id) by {
                    if post.contains(x) {
                        let k = choose|k: int| 0 <= k < post.len() && post[k] == x;
                        if k < i {
                            assert(pre[k] == x);
                        }
                    }
                    if pre.contains(x) {
                        let k = choose|k: int| 0 <= k < pre.len() && pre[k] == x;
                        assert(post[k] == x);
                    }
                    if x == id {
                        assert(post[i as int] == x);
                    }
                }
                assert forall|x: u64|
                    self.texture_set().contains(x) <==> (old(self).texture_set().contains(x)
                        || post.contains(x)) by {
                    assert(prev.texture_set().contains(x) <==> (old(self).texture_set().contains(
                        x,
                    ) || pre.contains(x)));
                    assert(self.texture_set().contains(x) <==> (prev.texture_set().contains(x)
                        || x == id));
                }
            }
            i += 1;
        }
        proof {
            assert(set_textures@.subrange(0, n_set as int) == set_textures@);
        }

        let width = params.physical_size.width;
        let height = params.physical_size.height;
        let rebuilt = self.surface_width != width || self.surface_height != height
            || !self.msaa_target_present;
        if rebuilt {
            self.surface_width = width;
            self.surface_height = height;
            self.msaa_target_present = true;
        }

        let ghost mid = *self;
        let mut j: usize = 0;
        let n_free = free_textures.len();
        while j < n_free
            invariant
                mid.wf(),
                self.wf(),
                n_free == free_textures@.len(),
                0 <= j <= n_free,
                self.max_texture_side == mid.max_texture_side,
                self.surface_width == mid.surface_width,
                self.surface_height == mid.surface_height,
                self.msaa_target_present == mid.msaa_target_present,
                n_free == 0 ==> self.textures@ == mid.textures@,
                forall|x: u64|
                    self.texture_set().contains(x) <==> (mid.texture_set().contains(x)
                        && !free_textures@.subrange(0, j as int).contains(x)),
            decreases n_free - j,
        {
            let ghost prev = *self;
            let id = free_textures[j];
            self.free_texture(id);
            proof {
                let pre = free_textures@.subrange(0, j as int);
                let post = free_textures@.subrange(0, j + 1int);
                assert forall|x: u64| post.contains(x) <==> (pre.contains(x) || x == id) by {
                    if post.contains(x) {
                        let k = choose|k: int| 0 <= k < post.len() && post[k] == x;
                        if k < j {
                            assert(pre[k] == x);
                        }
                    }
                    if pre.contains(x) {
                        let k = choose|k: int| 0 <= k < pre.len() && pre[k] == x;
                        assert(post[k] == x);
                    }
                    if x == id {
                        assert(post[j as int] == x);
                    }
                }
                assert forall|x: u64|
                    self.texture_set().contains(x) <==> (mid.texture_set().contains(x)
                        && !post.contains(x)) by {
                    assert(prev.texture_set().contains(x) <==> (mid.texture_set().contains(x)
                        && !pre.contains(x)));
                    assert(self.texture_set().contains(x) <==> (prev.texture_set().contains(x)
                        && x != id));
                }
            }
            j += 1;
        }
        proof {
            assert(free_textures@.subrange(0, n_free as int) == free_textures@);
            assert(set_textures@.subrange(0, n_set as int) == set_textures@);
            assert forall|x: u64|
                self.texture_set().contains(x) <==> ((old(self).texture_set().contains(x)
                    || set_textures@.contains(x)) && !free_textures@.contains(x)) by {
                assert(self.texture_set().contains(x) <==> (mid.texture_set().contains(x)
                    && !free_textures@.subrange(0, n_free as int).contains(x)));
                assert(mid.texture_set().contains(x) <==> (old(self).texture_set().contains(x)
                    || set_textures@.subrange(0, n_set as int).contains(x)));
            }
        }
        rebuilt
    }
}

/// A draw pass with no texture deltas is idempotent on the bookkeeping:
/// repeating it at the same size changes nothing, so over any number of
/// identical repeats the texture-size limit and the set of live backend
/// resources stay exactly what the first pass left.
pub proof fn lemma_render_idempotent(s: RendererState, width: u32, height: u32)
    ensures
        s.spec_after_plain_render(width, height).spec_after_plain_render(width, height)
            == s.spec_after_plain_render(width, height),
        s.spec_after_plain_render(width, height).max_texture_side == s.max_texture_side,
        s.spec_after_plain_render(width, height).texture_set() == s.texture_set(),
        !s.spec_after_plain_render(width, height).spec_needs_target_rebuild(width, height),
{
}

/// Whether a vector of identifiers holds the given one.
fn vec_contains(v: &Vec<u64>, x: u64) -> (r: bool)
    ensures
        r == v@.contains(x),
{
    let n = v.len();
    let mut i: usize = 0;
    while i < n
        invariant
            n == v@.len(),
            0 <= i <= n,
            forall|j: int| 0 <= j < i ==> v@[j] != x,
        decreases n - i,
    {
        if v[i] == x {
            return true;
        }
        i += 1;
    }
    false
}

} // verus!
