use render_core::skin::{assemble_skin, compute_skin, tangent_pair};

type V2 = (f32, f32);

#[derive(Clone, Copy)]
struct Joint {
    center: V2,
    axes: V2,
    dir: V2,
}

fn rotate(v: V2, r: V2) -> V2 {
    (r.0 * v.0 - r.1 * v.1, r.1 * v.0 + r.0 * v.1)
}

fn normalize(v: V2) -> V2 {
    let len = (v.0 * v.0 + v.1 * v.1).sqrt();
    (v.0 / len, v.1 / len)
}

/// Where the ray from the centre of `j` along `d` leaves its ellipse.
fn hit(j: &Joint, d: V2) -> V2 {
    let local = rotate(d, (j.dir.0, -j.dir.1));
    let denom = (local.0 * local.0) / (j.axes.0 * j.axes.0)
        + (local.1 * local.1) / (j.axes.1 * j.axes.1);
    let s = 1.0 / denom.sqrt();
    let world = rotate((local.0 * s, local.1 * s), j.dir);
    (world.0 + j.center.0, world.1 + j.center.1)
}

fn tangent(a: &Joint, b: &Joint) -> V2 {
    normalize((a.center.0 - b.center.0, a.center.1 - b.center.1))
}

fn normal_points(j: &Joint, a: &Joint, b: &Joint) -> Option<(V2, V2)> {
    let v = tangent(a, b);
    if v.0 * v.0 + v.1 * v.1 == 0.0 {
        return None;
    }
    Some((hit(j, (-v.1, v.0)), hit(j, (v.1, -v.0))))
}

fn cap(j: &Joint, a: &Joint, b: &Joint, forward: bool) -> V2 {
    let v = tangent(a, b);
    if forward {
        hit(j, v)
    } else {
        hit(j, (-v.0, -v.1))
    }
}

fn distance(a: V2, b: V2) -> f32 {
    ((a.0 - b.0) * (a.0 - b.0) + (a.1 - b.1) * (a.1 - b.1)).sqrt()
}

fn straight_spine(n: usize, axes: V2) -> Vec<Joint> {
    (0..n).map(|i| Joint { center: (-(i as f32), 0.0), axes, dir: (1.0, 0.0) }).collect()
}

#[test]
fn tangent_pairs_face_forward() {
    assert_eq!(tangent_pair(0, 4), (0, 1));
    assert_eq!(tangent_pair(1, 4), (1, 2));
    assert_eq!(tangent_pair(2, 4), (2, 3));
    assert_eq!(tangent_pair(3, 4), (2, 3));
    assert_eq!(tangent_pair(0, 2), (0, 1));
    assert_eq!(tangent_pair(1, 2), (0, 1));
}

#[test]
fn assembled_skin_runs_down_the_left_and_up_the_right() {
    let normals = vec![Some((10, 20)), Some((11, 21)), Some((12, 22))];
    let skin = assemble_skin(1, &normals, 2);
    assert_eq!(skin, vec![1, 10, 11, 12, 2, 22, 21, 20]);
}

#[test]
fn assembled_skin_skips_joints_without_normals() {
    let normals = vec![Some((10, 20)), None, Some((12, 22)), None];
    let skin = assemble_skin(1, &normals, 2);
    assert_eq!(skin, vec![1, 10, 12, 2, 22, 20]);
}

#[test]
fn assembled_skin_of_no_joints_is_the_caps() {
    let normals: Vec<Option<(u8, u8)>> = Vec::new();
    assert_eq!(assemble_skin(5, &normals, 6), vec![5, 6]);
}

#[test]
fn skin_of_an_empty_spine_is_empty() {
    let spine: Vec<Joint> = Vec::new();
    let skin = compute_skin(&spine, normal_points, cap);
    assert!(skin.is_empty());
}

#[test]
fn skin_loop_closure_of_a_straight_spine() {
    let (a, b) = (0.5f32, 0.25f32);
    let spine = straight_spine(4, (a, b));
    let skin = compute_skin(&spine, normal_points, cap);
    // two body points per joint, and the two caps
    assert_eq!(skin.len(), 2 * 4 + 2);
    let n = spine.len();
    let head_cap = skin[0];
    let tail_cap = skin[n + 1];
    assert!(distance(head_cap, (a, 0.0)) < 1e-6);
    assert!(distance(tail_cap, (-3.0 - a, 0.0)) < 1e-6);
    for i in 0..n {
        let left = skin[1 + i];
        let right = skin[2 * n + 1 - i];
        let c = spine[i].center;
        assert!((distance(left, c) - b).abs() < 1e-6);
        assert!((distance(right, c) - b).abs() < 1e-6);
        assert!(distance(left, (c.0, c.1 + b)) < 1e-6);
        assert!(distance(right, (c.0, c.1 - b)) < 1e-6);
    }
}

#[test]
fn skin_of_two_joints() {
    let spine = straight_spine(2, (1.0, 1.0));
    let skin = compute_skin(&spine, normal_points, cap);
    assert_eq!(skin.len(), 6);
    let expect: Vec<V2> = vec![
        (1.0, 0.0),
        (0.0, 1.0),
        (-1.0, 1.0),
        (-2.0, 0.0),
        (-1.0, -1.0),
        (0.0, -1.0),
    ];
    for (p, q) in skin.iter().zip(expect.iter()) {
        assert!(distance(*p, *q) < 1e-6);
    }
}

#[test]
fn skin_hands_each_joint_its_tangent_neighbours() {
    // joints are numbers; a probe records which joints it was given
    let spine: Vec<u32> = vec![10, 11, 12, 13];
    let normals = |j: &u32, a: &u32, b: &u32| Some(((*j, *a, *b, 'l'), (*j, *a, *b, 'r')));
    let caps = |j: &u32, a: &u32, b: &u32, forward: bool| {
        (*j, *a, *b, if forward { 'h' } else { 't' })
    };
    let skin = compute_skin(&spine, normals, caps);
    assert_eq!(
        skin,
        vec![
            (10, 10, 11, 'h'),
            (10, 10, 11, 'l'),
            (11, 11, 12, 'l'),
            (12, 12, 13, 'l'),
            (13, 12, 13, 'l'),
            (13, 12, 13, 't'),
            (13, 12, 13, 'r'),
            (12, 12, 13, 'r'),
            (11, 11, 12, 'r'),
            (10, 10, 11, 'r'),
        ]
    );
}

#[test]
fn skin_of_the_wide_four_joint_spine_has_ten_points() {
    let spine: Vec<Joint> = (0..4)
        .map(|i| Joint { center: (3.0 - i as f32, 0.0), axes: (2.0, 1.0), dir: (1.0, 0.0) })
        .collect();
    let skin = compute_skin(&spine, normal_points, cap);
    assert_eq!(skin.len(), 10);
    assert!(distance(skin[0], (5.0, 0.0)) < 1e-6);
    assert!(distance(skin[5], (-2.0, 0.0)) < 1e-6);
    for i in 0..4 {
        let c = spine[i].center;
        assert!(distance(skin[1 + i], (c.0, 1.0)) < 1e-6);
        assert!(distance(skin[9 - i], (c.0, -1.0)) < 1e-6);
    }
}
