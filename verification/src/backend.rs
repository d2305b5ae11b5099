//! Graphics-backend selection: a closed set of backend kinds tried in
//! preference order. The creation calls themselves live with the windowing
//! shell; this module owns the decisions — which candidate to try next, and
//! the composite error when every candidate failed.
use vstd::prelude::*;

verus! {

/// The closed set of graphics backends a window can draw with.
#[derive(Clone, Copy, PartialEq, Eq, Structural, Debug)]
pub enum GraphicsBackend {
    Dx12,
    Metal,
    Vulkan,
    Gl,
}

/// An error reported when creation failed for all candidate backends: each
/// backend tried, with the message its attempt produced. An empty list
/// means no backend was available to try at all.
#[derive(Debug)]
pub struct BackendCreationError {
    pub errors: Vec<(GraphicsBackend, String)>,
}

/// The order in which backends are tried: the preferred one first, then the
/// rest in the fixed base order.
pub open spec fn backend_order_spec(preferred: Option<GraphicsBackend>) -> Seq<GraphicsBackend> {
    match preferred {
        Option::None => seq![
            GraphicsBackend::Dx12,
            GraphicsBackend::Metal,
            GraphicsBackend::Vulkan,
            GraphicsBackend::Gl,
        ],
        Option::Some(p) => match p {
            GraphicsBackend::Dx12 => seq![
                GraphicsBackend::Dx12,
                GraphicsBackend::Metal,
                GraphicsBackend::Vulkan,
                GraphicsBackend::Gl,
            ],
            GraphicsBackend::Metal => seq![
                GraphicsBackend::Metal,
                GraphicsBackend::Dx12,
                GraphicsBackend::Vulkan,
                GraphicsBackend::Gl,
            ],
            GraphicsBackend::Vulkan => seq![
                GraphicsBackend::Vulkan,
                GraphicsBackend::Dx12,
                GraphicsBackend::Metal,
                GraphicsBackend::Gl,
            ],
            GraphicsBackend::Gl => seq![
                GraphicsBackend::Gl,
                GraphicsBackend::Dx12,
                GraphicsBackend::Metal,
                GraphicsBackend::Vulkan,
            ],
        },
    }
}

/// Produces the candidate order for a window: a stable move of the
/// preferred backend, if any, to the front.
pub fn backend_order(preferred: Option<GraphicsBackend>) -> (r: Vec<GraphicsBackend>)
    ensures
        r@ == backend_order_spec(preferred),
{
    let mut r: Vec<GraphicsBackend> = Vec::new();
    match preferred {
        Option::None => {
            r.push(GraphicsBackend::Dx12);
            r.push(GraphicsBackend::Metal);
            r.push(GraphicsBackend::Vulkan);
            r.push(GraphicsBackend::Gl);
        },
        Option::Some(p) => {
            r.push(p);
            if !matches!(p, GraphicsBackend::Dx12) {
                r.push(GraphicsBackend::Dx12);
            }
            if !matches!(p, GraphicsBackend::Metal) {
                r.push(GraphicsBackend::Metal);
            }
            if !matches!(p, GraphicsBackend::Vulkan) {
                r.push(GraphicsBackend::Vulkan);
            }
            if !matches!(p, GraphicsBackend::Gl) {
                r.push(GraphicsBackend::Gl);
            }
        },
    }
    proof {
        assert(r@ =~= backend_order_spec(preferred));
    }
    r
}

/// The walk over the candidate list: the windowing shell asks for the next
/// candidate, attempts the outside creation call, and reports failures
/// back; the selection records each failure. When the candidates are
/// exhausted the recorded failures become the composite error.
#[derive(Debug)]
pub struct BackendSelection {
    /// The candidates, in the order they are tried.
    pub candidates: Vec<GraphicsBackend>,
    /// How many candidates have been tried and failed.
    pub pos: usize,
    /// One entry per failed candidate, in order.
    pub errors: Vec<(GraphicsBackend, String)>,
}

impl BackendSelection {
    /// Every failure so far matches its candidate.
    pub open spec fn wf(self) -> bool {
        &&& self.pos <= self.candidates@.len()
        &&& self.errors@.len() == self.pos
        &&& forall|i: int|
            0 <= i < self.pos ==> (#[trigger] self.errors@[i]).0 == self.candidates@[i]
    }

    /// Starts a selection over the candidate order for `preferred`.
    pub fn start(preferred: Option<GraphicsBackend>) -> (r: BackendSelection)
        ensures
            r.wf(),
            r.candidates@ == backend_order_spec(preferred),
            r.pos == 0,
            r.errors@.len() == 0,
    {
        BackendSelection { candidates: backend_order(preferred), pos: 0, errors: Vec::new() }
    }

    /// The next backend to attempt, or `None` when all have failed.
    pub fn next_candidate(&self) -> (r: Option<GraphicsBackend>)
        requires
            self.wf(),
        ensures
            r == (if self.pos < self.candidates@.len() {
                Option::Some(self.candidates@[self.pos as int])
            } else {
                Option::<GraphicsBackend>::None
            }),
    {
        if self.pos < self.candidates.len() {
            Option::Some(self.candidates[self.pos])
        } else {
            Option::None
        }
    }

    /// Records that the current candidate failed with `message` and moves
    /// on to the next.
    pub fn fail(&mut self, message: String)
        requires
            old(self).wf(),
            old(self).pos < old(self).candidates@.len(),
        ensures
            final(self).wf(),
            final(self).candidates == old(self).candidates,
            final(self).pos == old(self).pos + 1,
            final(self).errors@ == old(self).errors@.push(
                (old(self).candidates@[old(self).pos as int], message),
            ),
    {
        let n = self.candidates.len();
        let backend = self.candidates[self.pos];
        self.errors.push((backend, message));
        proof {
            assert(self.pos < n);
        }
        self.pos = self.pos + 1;
    }

    /// The composite error once every candidate failed: one entry per
    /// attempted backend, in the order they were tried. Fatal to the
    /// affected window, not to the process.
    pub fn into_error(self) -> (r: BackendCreationError)
        requires
            self.wf(),
            self.pos == self.candidates@.len(),
        ensures
            r.errors@ == self.errors@,
            r.errors@.len() == self.candidates@.len(),
    {
        BackendCreationError { errors: self.errors }
    }
}

} // verus!
