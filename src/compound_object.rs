use vstd::prelude::*;
use crate::objects::{Material, ModelMatrix, Object, ObjectKind, encode_record, lemma_record_shape, record, RECORD_WORDS};
use crate::transform::Transform;

verus! {

/// A group of objects placed together: each child is positioned by the group's
/// transform composed with its own.
pub struct CompoundObject {
    pub objects: Vec<Object>,
    pub transform: Transform,
}

/// Where one primitive of a scene ends up: its kind, its material, and the
/// transforms that place it. The placing transform is the composition of
/// `chain`, folded from the left: `chain[0]` with `chain[1]`, that with
/// `chain[2]`, and so on.
pub struct Placement {
    pub kind: ObjectKind,
    pub material: Material,
    pub chain: Vec<Transform>,
}

pub struct PlacementView {
    pub kind: ObjectKind,
    pub material: Material,
    pub chain: Seq<Transform>,
}

impl View for Placement {
    type V = PlacementView;

    open spec fn view(&self) -> PlacementView {
        PlacementView { kind: self.kind, material: self.material, chain: self.chain@ }
    }
}

pub open spec fn views(ps: Seq<Placement>) -> Seq<PlacementView> {
    ps.map_values(|p: Placement| p@)
}

/// The primitives reached from `o`, in order, when `o` is placed by the
/// composition of `chain`. A primitive is placed by the chain itself (its own
/// transform is expected to be part of it already); a compound hands each child
/// the chain extended by the child's transform.
pub open spec fn flatten(o: Object, chain: Seq<Transform>) -> Seq<PlacementView>
    decreases o,
{
    match o {
        Object::Sphere(s) => seq![
            PlacementView { kind: ObjectKind::Sphere, material: s.material, chain },
        ],
        Object::Box(b) => seq![PlacementView { kind: ObjectKind::Box, material: b.material, chain }],
        Object::Compound(c) => flatten_all(c.objects@, chain),
    }
}

/// The children's primitives, child after child, each child placed by `chain`
/// followed by its own transform.
pub open spec fn flatten_all(children: Seq<Object>, chain: Seq<Transform>) -> Seq<PlacementView>
    decreases children,
{
    if children.len() == 0 {
        seq![]
    } else {
        let last = children.last();
        flatten_all(children.drop_last(), chain) + flatten(last, chain.push(last.transform_of()))
    }
}

/// What an object encodes to on its own: its primitives, placed starting from
/// its own transform.
pub open spec fn placements_of(o: Object) -> Seq<PlacementView> {
    flatten(o, seq![o.transform_of()])
}

fn copy_chain(chain: &Vec<Transform>) -> (r: Vec<Transform>)
    ensures
        r@ == chain@,
{
    let mut r: Vec<Transform> = Vec::new();
    let mut i: usize = 0;
    while i < chain.len()
        invariant
            i <= chain.len(),
            r@ == chain@.subrange(0, i as int),
        decreases chain.len() - i,
    {
        r.push(chain[i]);
        i = i + 1;
        assert(r@ =~= chain@.subrange(0, i as int));
    }
    assert(r@ =~= chain@);
    r
}

fn extended(chain: &Vec<Transform>, t: Transform) -> (r: Vec<Transform>)
    ensures
        r@ == chain@.push(t),
{
    let mut r = copy_chain(chain);
    r.push(t);
    r
}

proof fn lemma_views_append(a: Seq<Placement>, b: Seq<Placement>)
    ensures
        views(a + b) == views(a) + views(b),
{
    assert(views(a + b) =~= views(a) + views(b));
}

/// The placements of `children`, each placed by `chain` followed by its own
/// transform.
fn children_placements(children: &Vec<Object>, chain: &Vec<Transform>) -> (r: Vec<Placement>)
    ensures
        views(r@) == flatten_all(children@, chain@),
    decreases children,
{
    let mut data: Vec<Placement> = Vec::new();
    let mut i: usize = 0;
    while i < children.len()
        invariant
            i <= children.len(),
            views(data@) == flatten_all(children@.subrange(0, i as int), chain@),
        decreases children.len() - i,
    {
        let child = &children[i];
        let inner = extended(chain, *child.get_transform());
        proof {
            assert(decreases_to!(children => children@[i as int]));
        }
        let mut part = child.placements_with(&inner);
        proof {
            lemma_views_append(data@, part@);
            let next = children@.subrange(0, i + 1);
            assert(next.drop_last() =~= children@.subrange(0, i as int));
            assert(next.last() == children@[i as int]);
        }
        data.append(&mut part);
        i = i + 1;
    }
    assert(children@.subrange(0, children.len() as int) =~= children@);
    data
}

impl Object {
    /// The placements of this object's primitives when it is placed by the
    /// composition of `chain`.
    pub fn placements_with(&self, chain: &Vec<Transform>) -> (r: Vec<Placement>)
        ensures
            views(r@) == flatten(*self, chain@),
        decreases self,
    {
        match self {
            Object::Sphere(s) => {
                let mut r: Vec<Placement> = Vec::new();
                r.push(Placement { kind: ObjectKind::Sphere, material: s.material, chain: copy_chain(chain) });
                assert(views(r@) =~= flatten(*self, chain@));
                r
            },
            Object::Box(b) => {
                let mut r: Vec<Placement> = Vec::new();
                r.push(Placement { kind: ObjectKind::Box, material: b.material, chain: copy_chain(chain) });
                assert(views(r@) =~= flatten(*self, chain@));
                r
            },
            Object::Compound(c) => children_placements(&c.objects, chain),
        }
    }

    /// The placements of this object's primitives, starting from its own
    /// transform.
    pub fn placements(&self) -> (r: Vec<Placement>)
        ensures
            views(r@) == placements_of(*self),
    {
        let mut chain: Vec<Transform> = Vec::new();
        chain.push(*self.get_transform());
        assert(chain@ =~= seq![self.transform_of()]);
        self.placements_with(&chain)
    }
}

impl CompoundObject {
    pub fn new(transform: Transform) -> (r: CompoundObject)
        ensures
            r.objects@ == Seq::<Object>::empty(),
            r.transform == transform,
    {
        CompoundObject { objects: Vec::new(), transform }
    }

    /// Appends `object` as the last child; the group owns it from now on.
    pub fn add_object(&mut self, object: Object)
        ensures
            final(self).objects@ == old(self).objects@.push(object),
            final(self).transform == old(self).transform,
    {
        self.objects.push(object);
    }

    pub fn get_transform(&self) -> (r: &Transform)
        ensures
            *r == self.transform,
    {
        &self.transform
    }

    /// The placements of all primitives in this group, child after child, each
    /// child placed by the group's transform followed by its own.
    pub fn get_gpu_data(&self) -> (r: Vec<Placement>)
        ensures
            views(r@) == flatten_all(self.objects@, seq![self.transform]),
    {
        let mut chain: Vec<Transform> = Vec::new();
        chain.push(self.transform);
        assert(chain@ =~= seq![self.transform]);
        children_placements(&self.objects, &chain)
    }

    /// As `get_gpu_data`, with the group placed by `chain` in place of its own
    /// transform: each child is placed by `chain` followed by its own transform.
    pub fn get_gpu_data_custom_transform(&self, chain: &Vec<Transform>) -> (r: Vec<Placement>)
        ensures
            views(r@) == flatten_all(self.objects@, chain@),
    {
        children_placements(&self.objects, chain)
    }
}

/// The words of the scene buffer for `ps` placed by the model matrices `ms`:
/// the record of each of the first `n` placements, in order.
pub open spec fn scene_words(ps: Seq<PlacementView>, ms: Seq<ModelMatrix>, n: nat) -> Seq<u32>
    decreases n,
{
    if n == 0 {
        seq![]
    } else {
        let k = n - 1;
        scene_words(ps, ms, k as nat) + record(ps[k].kind, ms[k], ps[k].material)
    }
}

/// Builds the scene buffer: for each placement, the record of its primitive
/// under the model matrix at the same index of `models` (the matrix of the
/// placement's composed chain).
pub fn encode_placements(placements: &Vec<Placement>, models: &Vec<ModelMatrix>) -> (r: Vec<u32>)
    requires
        placements.len() == models.len(),
    ensures
        r@ == scene_words(views(placements@), models@, placements.len() as nat),
{
    let mut data: Vec<u32> = Vec::new();
    let mut i: usize = 0;
    while i < placements.len()
        invariant
            i <= placements.len(),
            placements.len() == models.len(),
            data@ == scene_words(views(placements@), models@, i as nat),
        decreases placements.len() - i,
    {
        let p = &placements[i];
        let mut words = encode_record(p.kind, &models[i], &p.material);
        data.append(&mut words);
        i = i + 1;
    }
    data
}

/// A group with transform `T` and a single child with transform `C` encodes to
/// exactly what the child encodes to when placed by `T` followed by `C`.
pub proof fn lemma_single_child_flattening(c: CompoundObject)
    requires
        c.objects@.len() == 1,
    ensures
        placements_of(Object::Compound(c)) == flatten(
            c.objects@[0],
            seq![c.transform, c.objects@[0].transform_of()],
        ),
        flatten_all(c.objects@, seq![c.transform]) == flatten(
            c.objects@[0],
            seq![c.transform, c.objects@[0].transform_of()],
        ),
{
    let children = c.objects@;
    assert(children.drop_last() =~= Seq::<Object>::empty());
    assert(seq![c.transform].push(children[0].transform_of()) =~= seq![
        c.transform,
        children[0].transform_of(),
    ]);
    assert(flatten_all(children.drop_last(), seq![c.transform]) == Seq::<PlacementView>::empty());
    assert(flatten_all(children, seq![c.transform]) =~= flatten(
        children[0],
        seq![c.transform, children[0].transform_of()],
    ));
}

/// A group without children encodes to nothing, wherever it is placed.
pub proof fn lemma_empty_compound(c: CompoundObject, chain: Seq<Transform>)
    requires
        c.objects@.len() == 0,
    ensures
        flatten(Object::Compound(c), chain) == Seq::<PlacementView>::empty(),
        placements_of(Object::Compound(c)) == Seq::<PlacementView>::empty(),
{
}

/// A primitive encoded on its own is placed by its own transform alone.
pub proof fn lemma_primitive_placement(o: Object)
    requires
        !(o is Compound),
    ensures
        placements_of(o).len() == 1,
        placements_of(o)[0].chain == seq![o.transform_of()],
{
}

/// Encoding is a function of the current field values: two encodings of the
/// same object give the same placements, and the same placements under the same
/// model matrices give the same words.
pub proof fn lemma_encoding_deterministic(
    o: Object,
    first: Seq<Placement>,
    second: Seq<Placement>,
    ms: Seq<ModelMatrix>,
)
    requires
        views(first) == placements_of(o),
        views(second) == placements_of(o),
        first.len() == ms.len(),
    ensures
        views(first) == views(second),
        scene_words(views(first), ms, first.len() as nat) == scene_words(
            views(second),
            ms,
            second.len() as nat,
        ),
{
    assert(first.len() == views(first).len());
    assert(second.len() == views(second).len());
}

/// The scene buffer holds one record of `RECORD_WORDS` words per placement.
pub proof fn lemma_scene_words_len(ps: Seq<PlacementView>, ms: Seq<ModelMatrix>, n: nat)
    requires
        n <= ps.len(),
        n <= ms.len(),
    ensures
        scene_words(ps, ms, n).len() == n * (RECORD_WORDS as nat),
    decreases n,
{
    if n > 0 {
        lemma_scene_words_len(ps, ms, (n - 1) as nat);
        lemma_record_shape(ps[n - 1].kind, ms[n - 1], ps[n - 1].material);
        assert((n - 1) * 20 + 20 == n * 20) by (nonlinear_arith);
    }
}

} // verus!
