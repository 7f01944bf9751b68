use raymarch_scene::compound_object::{encode_placements, CompoundObject, Placement};
use raymarch_scene::objects::{encode_record, Box, Material, ModelMatrix, Object, ObjectKind, Sphere, RECORD_WORDS};
use raymarch_scene::transform::{Transform, Vec3Bits};

fn v(x: f32, y: f32, z: f32) -> Vec3Bits {
    Vec3Bits::new(x.to_bits(), y.to_bits(), z.to_bits())
}

fn transform(p: (f32, f32, f32), s: (f32, f32, f32), r: (f32, f32, f32)) -> Transform {
    Transform::new(v(p.0, p.1, p.2), v(s.0, s.1, s.2), v(r.0, r.1, r.2))
}

fn material(metal: bool, dielectric: bool) -> Material {
    Material { color: v(0.8, 0.6, 0.2), roughness: 0.5f32.to_bits(), is_metal: metal, is_dielectric: dielectric, ior: 1.45f32.to_bits() }
}

fn numbered_matrix() -> ModelMatrix {
    let mut entries = [0u32; 16];
    for (i, e) in entries.iter_mut().enumerate() {
        *e = 100 + i as u32;
    }
    ModelMatrix { entries }
}

fn identity() -> ModelMatrix {
    let mut entries = [0.0f32.to_bits(); 16];
    for i in 0..4 {
        entries[4 * i + i] = 1.0f32.to_bits();
    }
    ModelMatrix { entries }
}

fn same_transform(a: &Transform, b: &Transform) -> bool {
    a == b
}

fn same_placements(a: &[Placement], b: &[Placement]) -> bool {
    a.len() == b.len()
        && a.iter().zip(b.iter()).all(|(x, y)| {
            x.kind == y.kind
                && x.material == y.material
                && x.chain.len() == y.chain.len()
                && x.chain.iter().zip(y.chain.iter()).all(|(s, t)| same_transform(s, t))
        })
}

#[test]
fn record_layout_is_exact() {
    let m = numbered_matrix();
    let mat = material(true, false);
    let words = encode_record(ObjectKind::Sphere, &m, &mat);
    let expected: Vec<u32> = vec![
        1, 100, 101, 102, 104, 105, 106, 108, 109, 110, 112, 113, 114,
        0.8f32.to_bits(), 0.6f32.to_bits(), 0.2f32.to_bits(), 0.5f32.to_bits(), 1, 0, 1.45f32.to_bits(),
    ];
    assert_eq!(words, expected);
}

#[test]
fn sphere_and_box_record_shape() {
    let t = transform((0.0, 1.0, 0.0), (1.0, 1.0, 1.0), (0.0, 0.0, 0.0));
    let sphere = Sphere::new(t, material(false, true));
    let bx = Box::new(t, material(true, false));
    let s = sphere.get_gpu_data(&identity());
    let b = bx.get_gpu_data(&identity());
    assert_eq!(s.len(), 20);
    assert_eq!(b.len(), 20);
    assert_eq!(RECORD_WORDS, 20);
    assert_eq!(s[0], 1);
    assert_eq!(b[0], 2);
    for w in [&s, &b] {
        assert!(w[17] == 0 || w[17] == 1);
        assert!(w[18] == 0 || w[18] == 1);
    }
    assert_eq!((s[17], s[18]), (0, 1));
    assert_eq!((b[17], b[18]), (1, 0));
    assert_eq!(s[1], 1.0f32.to_bits());
    assert_eq!(s[5], 1.0f32.to_bits());
    assert_eq!(s[2], 0.0f32.to_bits());
}

#[test]
fn flag_words_when_both_flags_set() {
    let words = encode_record(ObjectKind::Box, &identity(), &material(true, true));
    assert_eq!((words[17], words[18]), (1, 1));
}

#[test]
fn compound_flattening_equivalence() {
    let t = transform((1.0, 0.0, 0.0), (2.0, 2.0, 2.0), (0.0, 0.0, 0.0));
    let c = transform((0.0, 1.0, 0.0), (1.0, 1.0, 1.0), (0.0, 0.0, 0.0));
    let child = Sphere::new(c, material(false, false));
    let mut group = CompoundObject::new(t);
    group.add_object(Object::Sphere(child));

    let from_group = group.get_gpu_data();
    let from_child = Object::Sphere(child).placements_with(&vec![t, c]);
    assert!(same_placements(&from_group, &from_child));
    assert_eq!(from_group.len(), 1);
    assert_eq!(from_group[0].kind, ObjectKind::Sphere);
    assert!(same_transform(&from_group[0].chain[0], &t));
    assert!(same_transform(&from_group[0].chain[1], &c));

    let through_object = Object::Compound(group).placements();
    assert!(same_placements(&through_object, &from_child));

    let words_group = encode_placements(&from_group, &vec![identity()]);
    let words_child = child.get_gpu_data(&identity());
    assert_eq!(words_group, words_child);
}

#[test]
fn empty_compound_encodes_to_nothing() {
    let group = CompoundObject::new(transform((1.0, 2.0, 3.0), (1.0, 1.0, 1.0), (0.0, 0.0, 0.0)));
    assert!(group.get_gpu_data().is_empty());
    assert!(group.get_gpu_data_custom_transform(&vec![]).is_empty());
    let o = Object::Compound(group);
    assert!(o.placements().is_empty());
    assert!(encode_placements(&o.placements(), &vec![]).is_empty());
}

#[test]
fn encoding_twice_gives_the_same_words() {
    let t = transform((0.0, -3.0, 3.0), (1.0, 2.0, 1.0), (0.0, 0.0, 0.0));
    let mut group = CompoundObject::new(t);
    group.add_object(Object::Box(Box::new(t, material(false, false))));
    group.add_object(Object::Sphere(Sphere::new(t, material(true, false))));
    let o = Object::Compound(group);
    let first = o.placements();
    let second = o.placements();
    assert!(same_placements(&first, &second));
    let models = vec![numbered_matrix(), identity()];
    assert_eq!(encode_placements(&first, &models), encode_placements(&second, &models));
}

#[test]
fn nested_compounds_keep_child_order_and_chains() {
    let a = transform((1.0, 0.0, 0.0), (1.0, 1.0, 1.0), (0.0, 0.0, 0.0));
    let b = transform((0.0, 2.0, 0.0), (1.0, 1.0, 1.0), (0.0, 0.0, 0.0));
    let s1 = transform((0.0, 0.0, 3.0), (1.0, 1.0, 1.0), (0.0, 0.0, 0.0));
    let s2 = transform((0.0, 0.0, 4.0), (2.0, 1.0, 1.0), (0.0, 0.0, 0.0));
    let mut inner = CompoundObject::new(b);
    inner.add_object(Object::Sphere(Sphere::new(s1, material(false, false))));
    let mut outer = CompoundObject::new(a);
    outer.add_object(Object::Compound(inner));
    outer.add_object(Object::Box(Box::new(s2, material(true, false))));

    let ps = outer.get_gpu_data();
    assert_eq!(ps.len(), 2);
    assert_eq!(ps[0].kind, ObjectKind::Sphere);
    assert_eq!(ps[0].chain, vec![a, b, s1]);
    assert_eq!(ps[1].kind, ObjectKind::Box);
    assert_eq!(ps[1].chain, vec![a, s2]);

    let p = transform((9.0, 9.0, 9.0), (1.0, 1.0, 1.0), (0.0, 0.0, 0.0));
    let custom = outer.get_gpu_data_custom_transform(&vec![p]);
    assert_eq!(custom[0].chain, vec![p, b, s1]);
    assert_eq!(custom[1].chain, vec![p, s2]);

    let words = encode_placements(&ps, &vec![identity(), numbered_matrix()]);
    assert_eq!(words.len(), 40);
    assert_eq!(words[0], 1);
    assert_eq!(words[20], 2);
    assert_eq!(words[21], 100);
}

#[test]
fn primitive_placed_by_its_own_transform() {
    let t = transform((5.0, 1.0, 0.0), (1.0, 1.0, 1.0), (0.0, 0.0, 0.0));
    let o = Object::Box(Box::new(t, material(false, false)));
    let ps = o.placements();
    assert_eq!(ps.len(), 1);
    assert_eq!(ps[0].chain, vec![t]);
    assert_eq!(*o.get_transform(), t);
    let p = transform((0.0, 0.0, 0.0), (3.0, 3.0, 3.0), (0.0, 0.0, 0.0));
    assert_eq!(o.placements_with(&vec![p])[0].chain, vec![p]);
}

#[test]
fn transform_new_and_clone() {
    let t = transform((1.0, 2.0, 3.0), (2.0, 1.0, 1.0), (0.0, 90.0, 0.0));
    assert_eq!(t.position, v(1.0, 2.0, 3.0));
    assert_eq!(t.scale.x, 2.0f32.to_bits());
    assert_eq!(t.rotation.y, 90.0f32.to_bits());
    let u = t.clone();
    assert_eq!(u, t);
    let g = CompoundObject::new(t);
    assert_eq!(*g.get_transform(), t);
}
