//! The painter: it applies the pending texture batches, turns the
//! toolkit's meshes into paint jobs, and hands the jobs out as draw calls in
//! the order in which the toolkit emitted them.

use crate::scalar::Scalar;
use crate::scalar::Vec2;
use crate::textures::all_named_ids;
use crate::textures::all_sizes_match;
use crate::textures::apply_delta;
use crate::textures::apply_deltas;
use crate::textures::Color32;
use crate::textures::TextureCache;
use crate::textures::TextureId;
use crate::textures::Textures;
use crate::textures::TexturesDelta;
use std::collections::VecDeque;
use vstd::prelude::*;

verus! {

/// Why the painter cannot be brought up to date.
#[derive(Clone, Copy, Debug, PartialEq, Eq, Structural)]
pub enum PainterError {
    /// A waiting image does not hold as many pixels as its width and height
    /// say.
    SizeMismatch,
    /// A primitive asks for a rendering callback of the backend, which the
    /// painter does not support.
    Callback,
}

/// A vertex as the toolkit emits it: a position in logical points, a
/// texture coordinate and a colour.
#[derive(Clone, Copy, Debug, PartialEq, Eq, Structural)]
pub struct Vertex {
    pub pos: Vec2,
    pub uv: Vec2,
    pub color: Color32,
}

/// Textured triangles: the indices come in threes and point into the
/// vertices.
#[derive(Debug, PartialEq, Eq)]
pub struct Mesh {
    pub indices: Vec<u32>,
    pub vertices: Vec<Vertex>,
    pub texture_id: TextureId,
}

/// What a primitive paints.
#[derive(Debug, PartialEq, Eq)]
pub enum Primitive {
    Mesh(Mesh),
    /// A rendering callback of the backend. The painter refuses it.
    Callback,
}

/// A rectangle in logical points, by its upper left and lower right corner.
#[derive(Clone, Copy, Debug, PartialEq, Eq, Structural)]
pub struct ClipRect {
    pub min: Vec2,
    pub max: Vec2,
}

/// One unit of the toolkit's output: a primitive, and the rectangle
/// outside which it does not show.
#[derive(Debug, PartialEq, Eq)]
pub struct ClippedPrimitive {
    pub clip_rect: ClipRect,
    pub primitive: Primitive,
}

/// A vertex in the host's format.
#[derive(Clone, Copy, Debug, PartialEq, Eq, Structural)]
pub struct HostVertex {
    pub position: Vec2,
    pub uv: Vec2,
    pub color: Color32,
}

/// A mesh that is ready to be drawn with the texture that it names.
#[derive(Debug, PartialEq, Eq)]
pub struct PaintJob {
    pub texture_id: TextureId,
    pub vertices: Vec<HostVertex>,
    pub indices: Vec<u32>,
}

/// What a [`PaintJob`] holds.
pub struct PaintJobView {
    pub texture_id: TextureId,
    pub vertices: Seq<HostVertex>,
    pub indices: Seq<u32>,
}

impl View for PaintJob {
    type V = PaintJobView;

    open spec fn view(&self) -> PaintJobView {
        PaintJobView {
            texture_id: self.texture_id,
            vertices: self.vertices@,
            indices: self.indices@,
        }
    }
}

/// One draw of a mesh with its texture, scaled uniformly by `scale`.
#[derive(Debug, PartialEq, Eq)]
pub struct DrawCall {
    pub job: PaintJob,
    pub scale: Scalar,
}

/// What a [`DrawCall`] holds.
pub struct DrawCallView {
    pub job: PaintJobView,
    pub scale: Scalar,
}

impl View for DrawCall {
    type V = DrawCallView;

    open spec fn view(&self) -> DrawCallView {
        DrawCallView { job: self.job@, scale: self.scale }
    }
}

/// The views of a row of paint jobs.
pub open spec fn jobs_view(jobs: Seq<PaintJob>) -> Seq<PaintJobView> {
    jobs.map_values(|job: PaintJob| job@)
}

/// The views of a row of draw calls.
pub open spec fn calls_view(calls: Seq<DrawCall>) -> Seq<DrawCallView> {
    calls.map_values(|call: DrawCall| call@)
}

/// A toolkit vertex in the host's format.
pub open spec fn host_vertex(v: Vertex) -> HostVertex {
    HostVertex { position: v.pos, uv: v.uv, color: v.color }
}

/// The paint job that a mesh gives: its vertices in the host's format, and
/// its indices and texture id as they are.
pub open spec fn job_of(mesh: Mesh) -> PaintJobView {
    PaintJobView {
        texture_id: mesh.texture_id,
        vertices: mesh.vertices@.map_values(|v: Vertex| host_vertex(v)),
        indices: mesh.indices@,
    }
}

/// Whether a primitive gives a paint job: it is a mesh, it has at least
/// three vertices, and the cache holds its texture.
pub open spec fn drawable(primitive: Primitive, textures: Textures) -> bool {
    match primitive {
        Primitive::Mesh(mesh) => mesh.vertices@.len() >= 3 && textures.contains_key(
            mesh.texture_id,
        ),
        Primitive::Callback => false,
    }
}

/// The paint job of a drawable primitive.
pub open spec fn job_of_primitive(primitive: Primitive) -> PaintJobView
    recommends
        primitive is Mesh,
{
    job_of(primitive->Mesh_0)
}

/// The paint jobs that a list of primitives gives: one for each drawable
/// primitive, in the order of the list.
pub open spec fn built_jobs(shapes: Seq<ClippedPrimitive>, textures: Textures) -> Seq<
    PaintJobView,
>
    decreases shapes.len(),
{
    if shapes.len() == 0 {
        Seq::empty()
    } else {
        let before = built_jobs(shapes.drop_last(), textures);
        if drawable(shapes.last().primitive, textures) {
            before.push(job_of_primitive(shapes.last().primitive))
        } else {
            before
        }
    }
}

/// The draw calls that a list of paint jobs gives: one for each job whose
/// texture the cache holds, in the order of the list, each at `scale`.
pub open spec fn draw_calls(jobs: Seq<PaintJobView>, textures: Textures, scale: Scalar) -> Seq<
    DrawCallView,
>
    decreases jobs.len(),
{
    if jobs.len() == 0 {
        Seq::empty()
    } else {
        let before = draw_calls(jobs.drop_last(), textures, scale);
        if textures.contains_key(jobs.last().texture_id) {
            before.push(DrawCallView { job: jobs.last(), scale })
        } else {
            before
        }
    }
}

/// Whether every image of every batch holds as many pixels as its size
/// says.
pub open spec fn deltas_match(deltas: Seq<TexturesDelta>) -> bool {
    forall|i: int| 0 <= i < deltas.len() ==> all_sizes_match((#[trigger] deltas[i]).set@)
}

/// Whether a list of primitives holds a rendering callback.
pub open spec fn has_callback(shapes: Seq<ClippedPrimitive>) -> bool {
    exists|i: int| 0 <= i < shapes.len() && (#[trigger] shapes[i]).primitive is Callback
}

/// Builds the paint job of a mesh.
pub fn build_job(mesh: &Mesh) -> (job: PaintJob)
    ensures
        job@ == job_of(*mesh),
{
    let mut vertices: Vec<HostVertex> = Vec::new();
    let mut i: usize = 0;
    while i < mesh.vertices.len()
        invariant
            i <= mesh.vertices.len(),
            vertices@ == mesh.vertices@.take(i as int).map_values(|v: Vertex| host_vertex(v)),
        decreases mesh.vertices.len() - i,
    {
        let v = mesh.vertices[i];
        vertices.push(HostVertex { position: v.pos, uv: v.uv, color: v.color });
        proof {
            assert(vertices@ =~= mesh.vertices@.take(i + 1).map_values(
                |v: Vertex| host_vertex(v),
            ));
        }
        i += 1;
    }
    proof {
        assert(mesh.vertices@.take(i as int) == mesh.vertices@);
    }

    let mut indices: Vec<u32> = Vec::new();
    let mut k: usize = 0;
    while k < mesh.indices.len()
        invariant
            k <= mesh.indices.len(),
            indices@ == mesh.indices@.take(k as int),
        decreases mesh.indices.len() - k,
    {
        indices.push(mesh.indices[k]);
        proof {
            assert(indices@ =~= mesh.indices@.take(k + 1));
        }
        k += 1;
    }
    proof {
        assert(mesh.indices@.take(k as int) == mesh.indices@);
    }

    PaintJob { texture_id: mesh.texture_id, vertices, indices }
}

/// What a [`Painter`] holds, as contracts see it.
pub struct PainterView {
    /// The primitives of the last frame that ended, in paint order.
    pub shapes: Seq<ClippedPrimitive>,
    /// The texture batches that wait to be applied, oldest first.
    pub textures_delta: Seq<TexturesDelta>,
    /// The jobs that wait to be drawn, in paint order.
    pub paint_jobs: Seq<PaintJobView>,
    /// The texture cache.
    pub textures: Textures,
}

/// Reconciles the toolkit's output with the host: it owns the texture
/// cache and the jobs of the frame that is to be drawn.
pub struct Painter {
    shapes: Vec<ClippedPrimitive>,
    textures_delta: VecDeque<TexturesDelta>,
    paint_jobs: Vec<PaintJob>,
    textures: TextureCache,
}

impl View for Painter {
    type V = PainterView;

    closed spec fn view(&self) -> PainterView {
        PainterView {
            shapes: self.shapes@,
            textures_delta: self.textures_delta@,
            paint_jobs: jobs_view(self.paint_jobs@),
            textures: self.textures@,
        }
    }
}

impl Default for Painter {
    /// A painter with nothing to paint and an empty cache.
    fn default() -> (painter: Painter)
        ensures
            painter@ == (PainterView {
                shapes: Seq::empty(),
                textures_delta: Seq::empty(),
                paint_jobs: Seq::empty(),
                textures: Textures::empty(),
            }),
    {
        let painter = Painter {
            shapes: Vec::new(),
            textures_delta: VecDeque::new(),
            paint_jobs: Vec::new(),
            textures: TextureCache::new(),
        };
        proof {
            assert(jobs_view(painter.paint_jobs@) =~= Seq::empty());
        }
        painter
    }
}

impl Painter {
    /// The primitives of the last frame that ended.
    pub fn shapes(&self) -> (shapes: &Vec<ClippedPrimitive>)
        ensures
            shapes@ == self@.shapes,
    {
        &self.shapes
    }

    /// The number of texture batches that wait to be applied.
    pub fn pending_deltas(&self) -> (n: usize)
        ensures
            n == self@.textures_delta.len(),
    {
        self.textures_delta.len()
    }

    /// The jobs that wait to be drawn, in paint order.
    pub fn paint_jobs(&self) -> (jobs: &Vec<PaintJob>)
        ensures
            jobs_view(jobs@) == self@.paint_jobs,
    {
        &self.paint_jobs
    }

    /// The texture cache.
    pub fn textures(&self) -> (textures: &TextureCache)
        ensures
            textures@ == self@.textures,
    {
        &self.textures
    }

    /// Takes in the output of a frame that ended: its primitives replace
    /// those of the frame before, and its texture batch joins the end of
    /// the queue.
    pub fn submit(&mut self, shapes: Vec<ClippedPrimitive>, textures_delta: TexturesDelta)
        ensures
            final(self)@ == (PainterView {
                shapes: shapes@,
                textures_delta: old(self)@.textures_delta.push(textures_delta),
                ..old(self)@
            }),
    {
        self.shapes = shapes;
        self.textures_delta.push_back(textures_delta);
    }

    /// Applies one texture batch to the cache, ahead of the queue: its
    /// images are installed in order, then its ids are released.
    ///
    /// A batch with an image whose pixel count does not match its size must
    /// not be handed in: test with [`TexturesDelta::sizes_match`].
    pub fn update_textures(&mut self, textures_delta: TexturesDelta)
        requires
            all_sizes_match(textures_delta.set@),
        ensures
            final(self)@ == (PainterView {
                textures: apply_delta(old(self)@.textures, textures_delta),
                ..old(self)@
            }),
    {
        self.textures.apply(&textures_delta)
    }

    /// Whether the painter can be brought up to date: every waiting image
    /// has the size it says, and no primitive is a rendering callback. A
    /// wrong size is reported before a callback.
    pub fn validate(&self) -> (out: Result<(), PainterError>)
        ensures
            match out {
                Ok(()) => deltas_match(self@.textures_delta) && !has_callback(self@.shapes),
                Err(PainterError::SizeMismatch) => !deltas_match(self@.textures_delta),
                Err(PainterError::Callback) => deltas_match(self@.textures_delta) && has_callback(
                    self@.shapes,
                ),
            },
    {
        let ghost deltas = self.textures_delta@;
        let ghost shapes = self.shapes@;

        let mut i: usize = 0;
        while i < self.textures_delta.len()
            invariant
                i <= self.textures_delta.len(),
                forall|j: int| 0 <= j < i ==> all_sizes_match((#[trigger] deltas[j]).set@),
                deltas == self.textures_delta@,
            decreases self.textures_delta.len() - i,
        {
            if !self.textures_delta[i].sizes_match() {
                return Err(PainterError::SizeMismatch);
            }
            i += 1;
        }

        let mut k: usize = 0;
        while k < self.shapes.len()
            invariant
                k <= self.shapes.len(),
                forall|j: int| 0 <= j < k ==> !((#[trigger] shapes[j]).primitive is Callback),
                shapes == self.shapes@,
                deltas == self.textures_delta@,
                deltas_match(deltas),
            decreases self.shapes.len() - k,
        {
            if let Primitive::Callback = self.shapes[k].primitive {
                proof {
                    assert(shapes[k as int].primitive is Callback);
                }
                return Err(PainterError::Callback);
            }
            k += 1;
        }
        Ok(())
    }

    /// Brings the painter up to date with the last frame that ended.
    ///
    /// The queued texture batches are applied, each whole and oldest first.
    /// Then every mesh of the frame that has at least three vertices and
    /// whose texture the cache holds gives a paint job, in the order of the
    /// frame; the others are passed over.
    ///
    /// The result names the ids of the batches that were applied, in the
    /// order in which they were named: the host's copy of every other
    /// texture is still good.
    ///
    /// A waiting image of the wrong size, or a rendering callback among the
    /// primitives, must not be there: test with [`Painter::validate`].
    pub fn update(&mut self) -> (touched: Vec<TextureId>)
        requires
            deltas_match(old(self)@.textures_delta),
            !has_callback(old(self)@.shapes),
        ensures
            touched@ == all_named_ids(old(self)@.textures_delta),
            final(self)@ == (PainterView {
                shapes: old(self)@.shapes,
                textures_delta: Seq::empty(),
                paint_jobs: old(self)@.paint_jobs + built_jobs(
                    old(self)@.shapes,
                    apply_deltas(old(self)@.textures, old(self)@.textures_delta),
                ),
                textures: apply_deltas(old(self)@.textures, old(self)@.textures_delta),
            }),
    {
        let ghost deltas = self.textures_delta@;
        let ghost shapes = self.shapes@;
        let ghost jobs = jobs_view(self.paint_jobs@);
        let ghost cache = self.textures@;

        let waiting: usize = self.textures_delta.len();
        let mut touched: Vec<TextureId> = Vec::new();
        let mut done: usize = 0;
        while self.textures_delta.len() > 0
            invariant
                touched@ == all_named_ids(deltas.take(done as int)),
                done + self.textures_delta.len() == deltas.len(),
                deltas.len() == waiting,
                deltas_match(deltas),
                self.textures_delta@ == deltas.skip(done as int),
                self.textures@ == apply_deltas(cache, deltas.take(done as int)),
                self.shapes@ == shapes,
                jobs_view(self.paint_jobs@) == jobs,
            decreases self.textures_delta.len(),
        {
            let popped = self.textures_delta.pop_front();
            if let Some(delta) = popped {
                proof {
                    assert(delta == deltas[done as int]);
                    assert(all_sizes_match(deltas[done as int].set@));
                }
                self.textures.apply(&delta);
                delta.push_named_ids(&mut touched);
                proof {
                    assert(deltas.take(done + 1).drop_last() == deltas.take(done as int));
                    assert(self.textures_delta@ =~= deltas.skip(done + 1));
                }
                done += 1;
            }
        }
        proof {
            assert(deltas.take(done as int) == deltas);
            assert(self.textures_delta@ =~= Seq::empty());
        }
        let ghost applied = self.textures@;

        let mut n: usize = 0;
        while n < self.shapes.len()
            invariant
                n <= self.shapes.len(),
                self.shapes@ == shapes,
                self.textures@ == applied,
                self.textures_delta@ == Seq::<TexturesDelta>::empty(),
                !has_callback(shapes),
                touched@ == all_named_ids(deltas),
                jobs_view(self.paint_jobs@) == jobs + built_jobs(shapes.take(n as int), applied),
            decreases self.shapes.len() - n,
        {
            proof {
                assert(shapes.take(n + 1).drop_last() == shapes.take(n as int));
                assert(!(shapes[n as int].primitive is Callback));
            }
            if let Primitive::Mesh(mesh) = &self.shapes[n].primitive {
                if mesh.vertices.len() >= 3 && self.textures.contains(mesh.texture_id) {
                    let job = build_job(mesh);
                    let ghost built = self.paint_jobs@;
                    self.paint_jobs.push(job);
                    proof {
                        let prefix = shapes.take(n + 1);
                        assert(prefix.last() == shapes[n as int]);
                        assert(drawable(prefix.last().primitive, applied));
                        assert(jobs_view(self.paint_jobs@) =~= jobs_view(built).push(job@));
                        assert(jobs_view(self.paint_jobs@) =~= jobs + built_jobs(prefix, applied));
                    }
                }
            }
            n += 1;
        }
        proof {
            assert(shapes.take(n as int) == shapes);
        }
        touched
    }

    /// Hands out the draw calls of the waiting jobs and forgets the jobs.
    ///
    /// There is one call for each job whose texture the cache holds, in the
    /// order of the jobs, and each call is scaled by `scale_factor`.
    pub fn draw(&mut self, scale_factor: Scalar) -> (calls: Vec<DrawCall>)
        ensures
            calls_view(calls@) == draw_calls(
                old(self)@.paint_jobs,
                old(self)@.textures,
                scale_factor,
            ),
            final(self)@ == (PainterView { paint_jobs: Seq::empty(), ..old(self)@ }),
    {
        let mut jobs: Vec<PaintJob> = Vec::new();
        std::mem::swap(&mut self.paint_jobs, &mut jobs);
        let ghost all = jobs@;
        let ghost cache = self.textures@;

        let mut calls: Vec<DrawCall> = Vec::new();
        for job in it: jobs.into_iter()
            invariant
                it.seq() == all,
                self.textures@ == cache,
                self.shapes == old(self).shapes,
                self.textures_delta == old(self).textures_delta,
                self.paint_jobs@ == Seq::<PaintJob>::empty(),
                calls_view(calls@) == draw_calls(
                    jobs_view(all.take(it.index() as int)),
                    cache,
                    scale_factor,
                ),
        {
            proof {
                let upto = it.index() as int;
                assert(all.take(upto + 1).drop_last() == all.take(upto));
                assert(jobs_view(all.take(upto + 1)).drop_last() =~= jobs_view(all.take(upto)));
            }
            if self.textures.contains(job.texture_id) {
                calls.push(DrawCall { job, scale: scale_factor });
                proof {
                    assert(calls_view(calls@) =~= draw_calls(
                        jobs_view(all.take(it.index() + 1)),
                        cache,
                        scale_factor,
                    ));
                }
            }
        }
        proof {
            assert(all.take(all.len() as int) == all);
            assert(jobs_view(self.paint_jobs@) =~= Seq::empty());
        }
        calls
    }
}

/// The jobs of a list that is made of two parts are the jobs of the first
/// part followed by the jobs of the second.
pub proof fn lemma_built_jobs_concat(
    first: Seq<ClippedPrimitive>,
    second: Seq<ClippedPrimitive>,
    textures: Textures,
)
    ensures
        built_jobs(first + second, textures) == built_jobs(first, textures) + built_jobs(
            second,
            textures,
        ),
    decreases second.len(),
{
    if second.len() == 0 {
        assert(first + second =~= first);
        assert(built_jobs(first, textures) + built_jobs(second, textures) =~= built_jobs(
            first,
            textures,
        ));
    } else {
        lemma_built_jobs_concat(first, second.drop_last(), textures);
        assert((first + second).drop_last() =~= first + second.drop_last());
        assert((first + second).last() == second.last());
        assert(built_jobs(first + second, textures) =~= built_jobs(first, textures) + built_jobs(
            second,
            textures,
        ));
    }
}

/// Every job that is built names a texture that the cache holds.
pub proof fn lemma_built_jobs_resolve(shapes: Seq<ClippedPrimitive>, textures: Textures)
    ensures
        forall|k: int|
            0 <= k < built_jobs(shapes, textures).len() ==> textures.contains_key(
                (#[trigger] built_jobs(shapes, textures)[k]).texture_id,
            ),
    decreases shapes.len(),
{
    if shapes.len() > 0 {
        lemma_built_jobs_resolve(shapes.drop_last(), textures);
    }
}

/// Paint order is kept: of two drawable primitives, the one that comes
/// first in the list has its job first in the jobs. The job of a drawable
/// primitive stands at the place that the number of drawable primitives
/// before it gives.
pub proof fn lemma_paint_order(shapes: Seq<ClippedPrimitive>, textures: Textures, i: int, j: int)
    requires
        0 <= i < j < shapes.len(),
        drawable(shapes[i].primitive, textures),
        drawable(shapes[j].primitive, textures),
    ensures
        ({
            let jobs = built_jobs(shapes, textures);
            let at_i = built_jobs(shapes.take(i), textures).len() as int;
            let at_j = built_jobs(shapes.take(j), textures).len() as int;
            &&& 0 <= at_i < at_j < jobs.len()
            &&& jobs[at_i] == job_of_primitive(shapes[i].primitive)
            &&& jobs[at_j] == job_of_primitive(shapes[j].primitive)
        }),
{
    let upto_i = shapes.take(i);
    let only_i = seq![shapes[i]];
    let between = shapes.subrange(i + 1, j);
    let only_j = seq![shapes[j]];
    let after = shapes.skip(j + 1);

    reveal_with_fuel(built_jobs, 2);
    assert(only_i.drop_last() =~= Seq::empty());
    assert(only_j.drop_last() =~= Seq::empty());
    assert(built_jobs(only_i, textures) =~= seq![job_of_primitive(shapes[i].primitive)]);
    assert(built_jobs(only_j, textures) =~= seq![job_of_primitive(shapes[j].primitive)]);

    assert(shapes.take(j) =~= upto_i + only_i + between);
    assert(shapes =~= shapes.take(j) + only_j + after);
    lemma_built_jobs_concat(upto_i, only_i, textures);
    lemma_built_jobs_concat(upto_i + only_i, between, textures);
    lemma_built_jobs_concat(shapes.take(j), only_j, textures);
    lemma_built_jobs_concat(shapes.take(j) + only_j, after, textures);
}

/// A primitive that is not drawable leaves no trace: the jobs are those of
/// the list without it.
pub proof fn lemma_skipped_primitive_gives_no_job(
    shapes: Seq<ClippedPrimitive>,
    textures: Textures,
    i: int,
)
    requires
        0 <= i < shapes.len(),
        !drawable(shapes[i].primitive, textures),
    ensures
        built_jobs(shapes, textures) == built_jobs(shapes.remove(i), textures),
{
    let before = shapes.take(i);
    let only = seq![shapes[i]];
    let after = shapes.skip(i + 1);
    reveal_with_fuel(built_jobs, 2);
    assert(only.drop_last() =~= Seq::empty());
    assert(built_jobs(only, textures) =~= Seq::empty());
    assert(shapes =~= before + only + after);
    assert(shapes.remove(i) =~= before + after);
    lemma_built_jobs_concat(before, only, textures);
    lemma_built_jobs_concat(before + only, after, textures);
    lemma_built_jobs_concat(before, after, textures);
    assert(built_jobs(before, textures) + built_jobs(only, textures) =~= built_jobs(
        before,
        textures,
    ));
}

/// A mesh with fewer than three vertices never gives a job or a draw call,
/// whatever the cache holds: the jobs and the calls are those of the list
/// without it.
pub proof fn lemma_degenerate_mesh_gives_no_call(
    shapes: Seq<ClippedPrimitive>,
    textures: Textures,
    scale: Scalar,
    i: int,
)
    requires
        0 <= i < shapes.len(),
        shapes[i].primitive is Mesh,
        shapes[i].primitive->Mesh_0.vertices@.len() < 3,
    ensures
        built_jobs(shapes, textures) == built_jobs(shapes.remove(i), textures),
        draw_calls(built_jobs(shapes, textures), textures, scale) == draw_calls(
            built_jobs(shapes.remove(i), textures),
            textures,
            scale,
        ),
{
    lemma_skipped_primitive_gives_no_job(shapes, textures, i);
}

/// The calls of a list of jobs that is made of two parts are the calls of
/// the first part followed by the calls of the second.
pub proof fn lemma_draw_calls_concat(
    first: Seq<PaintJobView>,
    second: Seq<PaintJobView>,
    textures: Textures,
    scale: Scalar,
)
    ensures
        draw_calls(first + second, textures, scale) == draw_calls(first, textures, scale)
            + draw_calls(second, textures, scale),
    decreases second.len(),
{
    if second.len() == 0 {
        assert(first + second =~= first);
        assert(draw_calls(first, textures, scale) + draw_calls(second, textures, scale)
            =~= draw_calls(first, textures, scale));
    } else {
        lemma_draw_calls_concat(first, second.drop_last(), textures, scale);
        assert((first + second).drop_last() =~= first + second.drop_last());
        assert((first + second).last() == second.last());
        assert(draw_calls(first + second, textures, scale) =~= draw_calls(first, textures, scale)
            + draw_calls(second, textures, scale));
    }
}

/// Where the cache holds the texture of every job, there is exactly one
/// call for each job, in the order of the jobs, and each at `scale`.
pub proof fn lemma_draw_calls_of_resolved_jobs(
    jobs: Seq<PaintJobView>,
    textures: Textures,
    scale: Scalar,
)
    requires
        forall|k: int| 0 <= k < jobs.len() ==> textures.contains_key((#[trigger] jobs[k]).texture_id),
    ensures
        draw_calls(jobs, textures, scale).len() == jobs.len(),
        forall|k: int|
            0 <= k < jobs.len() ==> (#[trigger] draw_calls(jobs, textures, scale)[k])
                == (DrawCallView { job: jobs[k], scale }),
    decreases jobs.len(),
{
    if jobs.len() > 0 {
        let before = jobs.drop_last();
        assert(forall|k: int| 0 <= k < before.len() ==> before[k] == jobs[k]);
        lemma_draw_calls_of_resolved_jobs(before, textures, scale);
        assert(textures.contains_key(jobs[jobs.len() - 1].texture_id));
    }
}

/// Draw order is kept: of two jobs whose textures the cache holds, the one
/// that comes first in the list has its call first among the calls. The
/// call of such a job stands at the place that the number of calls of the
/// jobs before it gives.
pub proof fn lemma_draw_order(
    jobs: Seq<PaintJobView>,
    textures: Textures,
    scale: Scalar,
    i: int,
    j: int,
)
    requires
        0 <= i < j < jobs.len(),
        textures.contains_key(jobs[i].texture_id),
        textures.contains_key(jobs[j].texture_id),
    ensures
        ({
            let calls = draw_calls(jobs, textures, scale);
            let at_i = draw_calls(jobs.take(i), textures, scale).len() as int;
            let at_j = draw_calls(jobs.take(j), textures, scale).len() as int;
            &&& 0 <= at_i < at_j < calls.len()
            &&& calls[at_i] == (DrawCallView { job: jobs[i], scale })
            &&& calls[at_j] == (DrawCallView { job: jobs[j], scale })
        }),
{
    let upto_i = jobs.take(i);
    let only_i = seq![jobs[i]];
    let between = jobs.subrange(i + 1, j);
    let only_j = seq![jobs[j]];
    let after = jobs.skip(j + 1);

    reveal_with_fuel(draw_calls, 2);
    assert(only_i.drop_last() =~= Seq::empty());
    assert(only_j.drop_last() =~= Seq::empty());
    assert(draw_calls(only_i, textures, scale) =~= seq![DrawCallView { job: jobs[i], scale }]);
    assert(draw_calls(only_j, textures, scale) =~= seq![DrawCallView { job: jobs[j], scale }]);

    assert(jobs.take(j) =~= upto_i + only_i + between);
    assert(jobs =~= jobs.take(j) + only_j + after);
    lemma_draw_calls_concat(upto_i, only_i, textures, scale);
    lemma_draw_calls_concat(upto_i + only_i, between, textures, scale);
    lemma_draw_calls_concat(jobs.take(j), only_j, textures, scale);
    lemma_draw_calls_concat(jobs.take(j) + only_j, after, textures, scale);
}

/// Paint order is kept from the frame to the host: where the jobs of a
/// frame are drawn with the cache that they were built with, every drawable
/// primitive has exactly one call, and of two drawable primitives the one
/// that comes first in the frame has its call first.
pub proof fn lemma_frame_draw_order(
    shapes: Seq<ClippedPrimitive>,
    textures: Textures,
    scale: Scalar,
    i: int,
    j: int,
)
    requires
        0 <= i < j < shapes.len(),
        drawable(shapes[i].primitive, textures),
        drawable(shapes[j].primitive, textures),
    ensures
        ({
            let calls = draw_calls(built_jobs(shapes, textures), textures, scale);
            let at_i = built_jobs(shapes.take(i), textures).len() as int;
            let at_j = built_jobs(shapes.take(j), textures).len() as int;
            &&& calls.len() == built_jobs(shapes, textures).len()
            &&& 0 <= at_i < at_j < calls.len()
            &&& calls[at_i] == (DrawCallView { job: job_of_primitive(shapes[i].primitive), scale })
            &&& calls[at_j] == (DrawCallView { job: job_of_primitive(shapes[j].primitive), scale })
        }),
{
    lemma_paint_order(shapes, textures, i, j);
    lemma_built_jobs_resolve(shapes, textures);
    lemma_draw_calls_of_resolved_jobs(built_jobs(shapes, textures), textures, scale);
}

} // verus!
