use vstd::prelude::*;
use crate::compound_object::CompoundObject;
use crate::transform::{Transform, Vec3Bits};

verus! {

/// Number of words in the GPU record of one primitive.
pub const RECORD_WORDS: usize = 20;

/// Surface description of a primitive. Color, roughness and index of refraction
/// are `f32` bit patterns; `is_metal` and `is_dielectric` are meant to be
/// exclusive, but nothing enforces it.
#[derive(Clone, Copy, Debug, PartialEq, Eq, Structural)]
pub struct Material {
    pub color: Vec3Bits,
    pub roughness: u32,
    pub is_metal: bool,
    pub is_dielectric: bool,
    pub ior: u32,
}

/// The shapes the GPU interpreter knows.
#[derive(Clone, Copy, Debug, PartialEq, Eq, Structural)]
pub enum ObjectKind {
    Sphere,
    Box,
}

/// Type tag that opens a record.
pub open spec fn kind_tag(kind: ObjectKind) -> u32 {
    match kind {
        ObjectKind::Sphere => 1,
        ObjectKind::Box => 2,
    }
}

pub open spec fn flag_word(b: bool) -> u32 {
    if b {
        1
    } else {
        0
    }
}

/// A 4x4 model matrix, each entry an `f32` bit pattern, row-major: entry
/// `(r, c)` is `entries[4 * r + c]`.
#[derive(Clone, Copy, Debug)]
pub struct ModelMatrix {
    pub entries: [u32; 16],
}

pub open spec fn entry(m: ModelMatrix, r: int, c: int) -> u32 {
    m.entries@[4 * r + c]
}

/// The twelve matrix words of a record: the upper-left 3x3 block and the
/// translation row, row by row, without the last column.
pub open spec fn matrix_words(m: ModelMatrix) -> Seq<u32> {
    seq![
        entry(m, 0, 0), entry(m, 0, 1), entry(m, 0, 2),
        entry(m, 1, 0), entry(m, 1, 1), entry(m, 1, 2),
        entry(m, 2, 0), entry(m, 2, 1), entry(m, 2, 2),
        entry(m, 3, 0), entry(m, 3, 1), entry(m, 3, 2),
    ]
}

pub open spec fn material_words(mat: Material) -> Seq<u32> {
    seq![
        mat.color.x, mat.color.y, mat.color.z,
        mat.roughness,
        flag_word(mat.is_metal),
        flag_word(mat.is_dielectric),
        mat.ior,
    ]
}

/// The GPU record of one primitive: word 0 the type tag, words 1 to 12 the
/// matrix words, words 13 to 15 the color, word 16 the roughness, words 17 and
/// 18 the metal and dielectric flags, word 19 the index of refraction.
pub open spec fn record(kind: ObjectKind, m: ModelMatrix, mat: Material) -> Seq<u32> {
    seq![kind_tag(kind)] + matrix_words(m) + material_words(mat)
}

fn bool_word(b: bool) -> (r: u32)
    ensures
        r == flag_word(b),
{
    if b {
        1
    } else {
        0
    }
}

/// Builds the record of a primitive of `kind` placed by the model matrix `m`.
pub fn encode_record(kind: ObjectKind, m: &ModelMatrix, mat: &Material) -> (r: Vec<u32>)
    ensures
        r@ == record(kind, *m, *mat),
        r@.len() == RECORD_WORDS,
        r@[0] == kind_tag(kind),
        r@[17] == 0 || r@[17] == 1,
        r@[18] == 0 || r@[18] == 1,
{
    let mut data: Vec<u32> = Vec::with_capacity(RECORD_WORDS);
    data.push(match kind {
        ObjectKind::Sphere => 1u32,
        ObjectKind::Box => 2u32,
    });
    let rows: [usize; 4] = [0, 4, 8, 12];
    let mut i: usize = 0;
    while i < 4
        invariant
            0 <= i <= 4,
            rows@ == seq![0usize, 4usize, 8usize, 12usize],
            data@ == seq![kind_tag(kind)] + matrix_words(*m).subrange(0, 3 * i as int),
        decreases 4 - i,
    {
        let base = rows[i];
        data.push(m.entries[base]);
        data.push(m.entries[base + 1]);
        data.push(m.entries[base + 2]);
        proof {
            assert(matrix_words(*m).subrange(0, 3 * (i + 1)) =~= matrix_words(*m).subrange(0, 3 * i)
                + seq![m.entries@[base as int], m.entries@[base + 1], m.entries@[base + 2]]);
        }
        i = i + 1;
    }
    data.push(mat.color.x);
    data.push(mat.color.y);
    data.push(mat.color.z);
    data.push(mat.roughness);
    data.push(bool_word(mat.is_metal));
    data.push(bool_word(mat.is_dielectric));
    data.push(mat.ior);
    assert(data@ =~= record(kind, *m, *mat));
    data
}

/// Every record has `RECORD_WORDS` words, opens with the kind's tag (1 for a
/// sphere, 2 for a box), and holds each material flag as exactly 0 or 1.
pub proof fn lemma_record_shape(kind: ObjectKind, m: ModelMatrix, mat: Material)
    ensures
        record(kind, m, mat).len() == RECORD_WORDS,
        record(kind, m, mat)[0] == kind_tag(kind),
        kind == ObjectKind::Sphere ==> record(kind, m, mat)[0] == 1,
        kind == ObjectKind::Box ==> record(kind, m, mat)[0] == 2,
        record(kind, m, mat)[17] == 0 || record(kind, m, mat)[17] == 1,
        record(kind, m, mat)[18] == 0 || record(kind, m, mat)[18] == 1,
        record(kind, m, mat)[17] == flag_word(mat.is_metal),
        record(kind, m, mat)[18] == flag_word(mat.is_dielectric),
{
}

/// A sphere of unit radius in its local space.
#[derive(Clone, Copy, Debug, PartialEq, Eq, Structural)]
pub struct Sphere {
    pub material: Material,
    pub transform: Transform,
}

/// An axis-aligned unit box in its local space.
#[derive(Clone, Copy, Debug, PartialEq, Eq, Structural)]
pub struct Box {
    pub material: Material,
    pub transform: Transform,
}

impl Sphere {
    pub fn new(transform: Transform, material: Material) -> (r: Sphere)
        ensures
            r.transform == transform,
            r.material == material,
    {
        Sphere { material, transform }
    }

    pub fn get_transform(&self) -> (r: &Transform)
        ensures
            *r == self.transform,
    {
        &self.transform
    }

    /// The record of this sphere, for `m` the model matrix of whatever transform
    /// places it (its own, or one composed with its parents').
    pub fn get_gpu_data(&self, m: &ModelMatrix) -> (r: Vec<u32>)
        ensures
            r@ == record(ObjectKind::Sphere, *m, self.material),
    {
        encode_record(ObjectKind::Sphere, m, &self.material)
    }
}

impl Box {
    pub fn new(transform: Transform, material: Material) -> (r: Box)
        ensures
            r.transform == transform,
            r.material == material,
    {
        Box { material, transform }
    }

    pub fn get_transform(&self) -> (r: &Transform)
        ensures
            *r == self.transform,
    {
        &self.transform
    }

    /// The record of this box, for `m` the model matrix of whatever transform
    /// places it.
    pub fn get_gpu_data(&self, m: &ModelMatrix) -> (r: Vec<u32>)
        ensures
            r@ == record(ObjectKind::Box, *m, self.material),
    {
        encode_record(ObjectKind::Box, m, &self.material)
    }
}

/// Anything that can stand in a scene: a primitive, or a compound that owns an
/// ordered list of further objects.
pub enum Object {
    Sphere(Sphere),
    Box(Box),
    Compound(CompoundObject),
}

impl Object {
    pub open spec fn transform_of(&self) -> Transform {
        match self {
            Object::Sphere(s) => s.transform,
            Object::Box(b) => b.transform,
            Object::Compound(c) => c.transform,
        }
    }

    pub fn get_transform(&self) -> (r: &Transform)
        ensures
            *r == self.transform_of(),
    {
        match self {
            Object::Sphere(s) => &s.transform,
            Object::Box(b) => &b.transform,
            Object::Compound(c) => &c.transform,
        }
    }
}

} // verus!
