//! The pipeline registry of a render backend: an append-only sequence whose
//! indices are the handles that the rest of the program holds, and the
//! state of the surface that frames are drawn to.

use vstd::prelude::*;

verus! {

/// An index into the registry that issued it.
pub type RenderPipelineHandle = usize;

/// The pipelines of a backend, in the order in which they were registered.
pub struct PipelineCache<T> {
    pipelines: Vec<T>,
}

impl<T> View for PipelineCache<T> {
    type V = Seq<T>;

    closed spec fn view(&self) -> Seq<T> {
        self.pipelines@
    }
}

/// The registry after `pipelines` were registered one after the other.
pub open spec fn registered_all<T>(base: Seq<T>, pipelines: Seq<T>) -> Seq<T>
    decreases pipelines.len(),
{
    if pipelines.len() == 0 {
        base
    } else {
        registered_all(base, pipelines.drop_last()).push(pipelines.last())
    }
}

/// The handle that the `k`-th of a series of registrations returns.
pub open spec fn handle_of<T>(base: Seq<T>, pipelines: Seq<T>, k: int) -> int {
    registered_all(base, pipelines.take(k)).len() as int
}

impl<T> PipelineCache<T> {
    /// A registry without pipelines.
    pub fn new() -> (cache: PipelineCache<T>)
        ensures
            cache@ == Seq::<T>::empty(),
    {
        PipelineCache { pipelines: Vec::new() }
    }

    /// How many pipelines are registered.
    pub fn len(&self) -> (n: usize)
        ensures
            n == self@.len(),
    {
        self.pipelines.len()
    }

    /// Whether `handle` was issued by this registry.
    pub fn is_valid(&self, handle: RenderPipelineHandle) -> (valid: bool)
        ensures
            valid == (handle < self@.len()),
    {
        handle < self.pipelines.len()
    }

    /// Appends `pipeline` and returns its handle. Pipelines registered
    /// before keep their handles.
    pub fn register(&mut self, pipeline: T) -> (handle: RenderPipelineHandle)
        ensures
            final(self)@ == old(self)@.push(pipeline),
            handle == old(self)@.len(),
    {
        let handle = self.pipelines.len();
        self.pipelines.push(pipeline);
        handle
    }

    /// The pipeline registered under `handle`, if this registry issued it.
    pub fn get(&self, handle: RenderPipelineHandle) -> (pipeline: Option<&T>)
        ensures
            pipeline == if handle < self@.len() {
                Some(&self@[handle as int])
            } else {
                None::<&T>
            },
    {
        if handle < self.pipelines.len() {
            Some(&self.pipelines[handle])
        } else {
            None
        }
    }
}

/// Registrations that take effect one after the other, in whatever order,
/// lose nothing and disturb nothing: the registry grows by exactly the
/// pipelines registered, the `k`-th registration returns the handle
/// `base.len() + k`, so that no two handles are the same, every handle
/// leads to the pipeline it was issued for, and what was registered before
/// stays where it was.
pub proof fn lemma_registrations<T>(base: Seq<T>, pipelines: Seq<T>)
    ensures
        registered_all(base, pipelines) == base + pipelines,
        forall|k: int|
            0 <= k < pipelines.len() ==> #[trigger] handle_of(base, pipelines, k) == base.len()
                + k,
        forall|j: int, k: int|
            0 <= j < k < pipelines.len() ==> handle_of(base, pipelines, j) != handle_of(
                base,
                pipelines,
                k,
            ),
        forall|k: int|
            0 <= k < pipelines.len() ==> registered_all(base, pipelines)[#[trigger] handle_of(
                base,
                pipelines,
                k,
            )] == pipelines[k],
        forall|h: int| 0 <= h < base.len() ==> registered_all(base, pipelines)[h] == base[h],
{
    lemma_registered_all(base, pipelines);
    assert forall|k: int| 0 <= k < pipelines.len() implies #[trigger] handle_of(
        base,
        pipelines,
        k,
    ) == base.len() + k by {
        lemma_registered_all(base, pipelines.take(k));
    }
}

proof fn lemma_registered_all<T>(base: Seq<T>, pipelines: Seq<T>)
    ensures
        registered_all(base, pipelines) == base + pipelines,
    decreases pipelines.len(),
{
    if pipelines.len() > 0 {
        lemma_registered_all(base, pipelines.drop_last());
        assert(base + pipelines =~= (base + pipelines.drop_last()).push(pipelines.last()));
    } else {
        assert(base + pipelines =~= base);
    }
}

/// Whether frames can be drawn.
#[derive(Debug, PartialEq, Eq, Structural, Copy, Clone)]
pub enum SurfaceState {
    /// No window has been handed over yet.
    Uninitialized,
    /// The swap target exists, at this size.
    Ready { width: u32, height: u32 },
}

/// What the backend has to do when it is handed a window.
#[derive(Debug, PartialEq, Eq, Structural, Copy, Clone)]
pub enum SurfaceAction {
    /// Set up device and surface, and create the swap target.
    Create { width: u32, height: u32 },
    /// Keep the device and its pipelines; create the swap target anew.
    Recreate { width: u32, height: u32 },
}

impl SurfaceState {
    /// The state after a window of the given size was handed over.
    pub open spec fn after_init(self, width: u32, height: u32) -> (SurfaceState, SurfaceAction) {
        (
            SurfaceState::Ready { width, height },
            match self {
                SurfaceState::Uninitialized => SurfaceAction::Create { width, height },
                SurfaceState::Ready { .. } => SurfaceAction::Recreate { width, height },
            },
        )
    }

    /// Takes a window, for the first time or after it was resized. The
    /// surface is ready afterwards and never falls back.
    pub fn init_window(&mut self, width: u32, height: u32) -> (action: SurfaceAction)
        ensures
            (*final(self), action) == old(self).after_init(width, height),
            *final(self) is Ready,
    {
        let action = match self {
            SurfaceState::Uninitialized => SurfaceAction::Create { width, height },
            SurfaceState::Ready { .. } => SurfaceAction::Recreate { width, height },
        };
        *self = SurfaceState::Ready { width, height };
        action
    }
}

/// Handing over the same window twice leaves the surface as it was after
/// the first time, and the second time only the swap target is made anew.
pub proof fn lemma_init_window_idempotent(state: SurfaceState, width: u32, height: u32)
    ensures
        ({
            let once = state.after_init(width, height).0;
            let twice = once.after_init(width, height);
            twice.0 == once && twice.1 == SurfaceAction::Recreate { width, height }
        }),
{
}

} // verus!
