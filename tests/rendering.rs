use ray_tracer::color::Color;
use ray_tracer::fixed::{fx_add, fx_div, fx_mul, fx_sqrt, fx_sub, SCALE};
use ray_tracer::light::{lighting, power, Light};
use ray_tracer::material::Material;
use ray_tracer::matrix::Matrix;
use ray_tracer::ray::{Intersection, Ray, Sphere};
use ray_tracer::tuple::{point, vector, Tuple};
use ray_tracer::world::World;

fn fx(v: f64) -> i64 {
    (v * SCALE as f64).round() as i64
}

fn close(raw: i64, expected: f64, tolerance: f64) -> bool {
    ((raw as f64) / (SCALE as f64) - expected).abs() <= tolerance
}

fn sample() -> Matrix {
    Matrix::init(vec![
        vec![fx(1.0), fx(2.0), fx(3.0), fx(4.0)],
        vec![fx(5.5), fx(6.5), fx(7.5), fx(8.5)],
        vec![fx(9.0), fx(10.0), fx(11.0), fx(12.0)],
        vec![fx(-13.5), fx(14.5), fx(-15.5), fx(16.5)],
    ])
}

#[test]
fn fixed_point_arithmetic() {
    assert_eq!(fx_add(fx(1.5), fx(2.25)), fx(3.75));
    assert_eq!(fx_sub(fx(1.5), fx(2.25)), fx(-0.75));
    assert_eq!(fx_mul(fx(1.5), fx(-2.0)), fx(-3.0));
    assert_eq!(fx_div(fx(3.0), fx(2.0)), fx(1.5));
    assert_eq!(fx_div(fx(-1.0), fx(3.0)), -333_333);
    assert_eq!(fx_div(fx(5.0), 0), 0);
    assert_eq!(fx_sqrt(fx(4.0)), fx(2.0));
    assert_eq!(fx_sqrt(fx(2.0)), 1_414_213);
    assert_eq!(fx_sqrt(fx(-4.0)), 0);
}

#[test]
fn fixed_point_saturates() {
    assert_eq!(fx_add(i64::MAX, 1), i64::MAX);
    assert_eq!(fx_sub(i64::MIN, 1), i64::MIN);
    assert_eq!(fx_mul(i64::MAX, fx(2.0)), i64::MAX);
    assert_eq!(fx_div(i64::MIN, 1), i64::MIN);
}

#[test]
fn power_by_whole_exponent() {
    assert_eq!(power(fx(0.5), 3), fx(0.125));
    assert_eq!(power(fx(7.0), 0), fx(1.0));
}

#[test]
fn tuple_operations() {
    let v = vector(fx(1.0), fx(2.0), fx(3.0));
    let w = vector(fx(2.0), fx(3.0), fx(4.0));
    assert_eq!(v.dot(w), fx(20.0));
    assert_eq!(point(fx(3.0), fx(2.0), fx(1.0)).sub(point(fx(5.0), fx(6.0), fx(7.0))), vector(fx(-2.0), fx(-4.0), fx(-6.0)));
    assert_eq!(vector(fx(4.0), 0, 0).normalize(), vector(fx(1.0), 0, 0));
    assert_eq!(vector(0, 0, 0).normalize(), vector(0, 0, 0));
    assert_eq!(vector(fx(1.0), fx(2.0), fx(3.0)).magnitude(), 3_741_657);
    let reflected = vector(fx(1.0), fx(-1.0), 0).reflect(vector(0, fx(1.0), 0));
    assert_eq!(reflected, vector(fx(1.0), fx(1.0), 0));
    assert_eq!(v.negate(), vector(fx(-1.0), fx(-2.0), fx(-3.0)));
}

#[test]
fn color_operations() {
    let a = Color::new(fx(1.0), fx(0.2), fx(0.4));
    let b = Color::new(fx(0.9), fx(1.0), fx(0.1));
    assert_eq!(a.blend(b), Color::new(fx(0.9), fx(0.2), fx(0.04)));
    assert_eq!(a.add(b), Color::new(fx(1.9), fx(1.2), fx(0.5)));
    assert_eq!(a.scale(fx(2.0)), Color::new(fx(2.0), fx(0.4), fx(0.8)));
}

#[test]
fn identity_matrix_entries() {
    let id = Matrix::identity(3);
    assert_eq!(id.matrix, vec![vec![fx(1.0), 0, 0], vec![0, fx(1.0), 0], vec![0, 0, fx(1.0)]]);
    assert_eq!(id.at(1, 1), fx(1.0));
    assert_eq!(id.at(0, 2), 0);
}

#[test]
fn multiply_by_identity_gives_matrix_back() {
    let m = sample();
    let id = Matrix::identity(4);
    assert!(m.multiply(&id) == sample());
    assert!(id.multiply(&m) == sample());
}

#[test]
fn multiply_two_matrices() {
    let a = Matrix::init(vec![vec![fx(1.0), fx(2.0)], vec![fx(3.0), fx(4.0)]]);
    let b = Matrix::init(vec![vec![fx(0.5), 0], vec![fx(-1.0), fx(2.0)]]);
    let p = a.multiply(&b);
    assert_eq!(p.matrix, vec![vec![fx(-1.5), fx(4.0)], vec![fx(-2.5), fx(8.0)]]);
    let q = b.multiply(&a);
    assert!(!(p == q));
}

#[test]
fn transpose_twice_gives_matrix_back() {
    let m = sample();
    let t = m.transpose();
    assert_eq!(t.at(0, 3), fx(-13.5));
    assert_eq!(t.at(3, 0), fx(4.0));
    assert!(t.transpose() == sample());
    assert!(!(t == sample()));
}

#[test]
fn translation_moves_points_only() {
    let m = Matrix::translation(fx(5.0), fx(-3.0), fx(2.0));
    assert_eq!(m.apply(point(fx(-3.0), fx(4.0), fx(5.0))), point(fx(2.0), fx(1.0), fx(7.0)));
    let v = vector(fx(-3.0), fx(4.0), fx(5.0));
    assert_eq!(m.apply(v), v);
}

#[test]
fn scaling_points_and_vectors() {
    let m = Matrix::scaling(fx(2.0), fx(3.0), fx(4.0));
    assert_eq!(m.apply(point(fx(-4.0), fx(6.0), fx(8.0))), point(fx(-8.0), fx(18.0), fx(32.0)));
    assert_eq!(m.apply(vector(fx(-4.0), fx(6.0), fx(8.0))), vector(fx(-8.0), fx(18.0), fx(32.0)));
}

#[test]
fn rotation_and_skew() {
    let quarter = Matrix::rotation_z(0, fx(1.0));
    assert_eq!(quarter.apply(point(0, fx(1.0), 0)), point(fx(-1.0), 0, 0));
    let about_x = Matrix::rotation_x(0, fx(1.0));
    assert_eq!(about_x.apply(point(0, fx(1.0), 0)), point(0, 0, fx(1.0)));
    let about_y = Matrix::rotation_y(0, fx(1.0));
    assert_eq!(about_y.apply(point(0, 0, fx(1.0))), point(fx(1.0), 0, 0));
    let shear = Matrix::skew(fx(1.0), 0, 0, 0, 0, 0);
    assert_eq!(shear.apply(point(fx(2.0), fx(3.0), fx(4.0))), point(fx(5.0), fx(3.0), fx(4.0)));
}

#[test]
fn composed_transforms_apply_right_to_left() {
    let scale = Matrix::scaling(fx(5.0), fx(5.0), fx(5.0));
    let shift = Matrix::translation(fx(10.0), fx(5.0), fx(7.0));
    let chain = shift.multiply(&scale);
    assert_eq!(chain.apply(point(fx(1.0), 0, fx(1.0))), point(fx(15.0), fx(5.0), fx(12.0)));
}

#[test]
fn ray_position_and_transform() {
    let r = Ray::new(point(fx(2.0), fx(3.0), fx(4.0)), vector(fx(1.0), 0, 0));
    assert_eq!(r.position(fx(-1.0)), point(fx(1.0), fx(3.0), fx(4.0)));
    assert_eq!(r.position(fx(2.5)), point(fx(4.5), fx(3.0), fx(4.0)));
    let moved = r.transform(&Matrix::scaling(fx(2.0), fx(3.0), fx(4.0)));
    assert_eq!(moved.origin, point(fx(4.0), fx(9.0), fx(16.0)));
    assert_eq!(moved.direction, vector(fx(2.0), 0, 0));
}

fn hit_times(origin: Tuple, direction: Tuple) -> Vec<i64> {
    let s = Sphere::init();
    Ray::new(origin, direction).intersect(&s, 7).iter().map(|i| i.t).collect()
}

#[test]
fn ray_through_center_hits_twice() {
    assert_eq!(hit_times(point(0, 0, fx(-5.0)), vector(0, 0, fx(1.0))), vec![fx(4.0), fx(6.0)]);
    let s = Sphere::init();
    let hits = Ray::new(point(0, 0, fx(-5.0)), vector(0, 0, fx(1.0))).intersect(&s, 7);
    assert_eq!(hits[0], Intersection { t: fx(4.0), object: 7 });
}

#[test]
fn tangent_ray_hits_twice_at_one_point() {
    assert_eq!(hit_times(point(0, fx(1.0), fx(-5.0)), vector(0, 0, fx(1.0))), vec![fx(5.0), fx(5.0)]);
}

#[test]
fn ray_missing_sphere_has_no_hits() {
    assert!(hit_times(point(0, fx(2.0), fx(-5.0)), vector(0, 0, fx(1.0))).is_empty());
}

#[test]
fn ray_from_inside_hits_behind_and_ahead() {
    assert_eq!(hit_times(point(0, 0, 0), vector(0, 0, fx(1.0))), vec![fx(-1.0), fx(1.0)]);
}

#[test]
fn sphere_behind_ray_gives_negative_hits() {
    assert_eq!(hit_times(point(0, 0, fx(5.0)), vector(0, 0, fx(1.0))), vec![fx(-6.0), fx(-4.0)]);
}

#[test]
fn scaled_sphere_intersections() {
    let s = Sphere::init().with_transform(
        Matrix::scaling(fx(2.0), fx(2.0), fx(2.0)),
        Matrix::scaling(fx(0.5), fx(0.5), fx(0.5)),
    );
    let hits = Ray::new(point(0, 0, fx(-5.0)), vector(0, 0, fx(1.0))).intersect(&s, 0);
    let times: Vec<i64> = hits.iter().map(|i| i.t).collect();
    assert_eq!(times, vec![fx(3.0), fx(7.0)]);
}

#[test]
fn normals_on_spheres() {
    let s = Sphere::init();
    assert_eq!(s.normal_at(point(fx(1.0), 0, 0)), vector(fx(1.0), 0, 0));
    let moved = Sphere::init().with_transform(
        Matrix::translation(0, fx(1.0), 0),
        Matrix::translation(0, fx(-1.0), 0),
    );
    let n = moved.normal_at(point(0, fx(1.70711), fx(-0.70711)));
    assert!(close(n.x, 0.0, 1e-4));
    assert!(close(n.y, 0.70711, 1e-4));
    assert!(close(n.z, -0.70711, 1e-4));
    assert_eq!(n.w, 0);
}

#[test]
fn new_world_is_empty_with_default_light() {
    let w = World::new();
    assert!(w.objects.is_empty());
    assert_eq!(w.light.position, point(fx(-10.0), fx(10.0), fx(-10.0)));
    assert_eq!(w.light.intensity, Color::new(fx(1.0), fx(1.0), fx(1.0)));
}

#[test]
fn default_world_holds_two_spheres() {
    let w = World::default();
    assert_eq!(w.objects.len(), 2);
    assert_eq!(w.objects[0].material.diffuse, fx(0.7));
    assert_eq!(w.objects[0].material.color, Color::new(fx(0.8), fx(1.0), fx(0.6)));
    assert!(w.objects[0].transform == Matrix::identity(4));
    assert!(w.objects[1].transform == Matrix::scaling(fx(0.5), fx(0.5), fx(0.5)));
    assert_eq!(w.objects[1].material, Material::init());
}

#[test]
fn world_intersect_returns_hits_in_order() {
    let w = World::default();
    let r = Ray::new(point(0, 0, fx(-5.0)), vector(0, 0, fx(1.0)));
    let hits = w.intersect(&r);
    let times: Vec<i64> = hits.iter().map(|i| i.t).collect();
    assert_eq!(times, vec![fx(4.0), fx(4.5), fx(5.5), fx(6.0)]);
    let objects: Vec<usize> = hits.iter().map(|i| i.object).collect();
    assert_eq!(objects, vec![0, 1, 1, 0]);
}

#[test]
fn world_intersect_sorts_whatever_the_object_order() {
    let mut w = World::new();
    w.objects.push(Sphere::init().with_transform(
        Matrix::translation(0, 0, fx(10.0)),
        Matrix::translation(0, 0, fx(-10.0)),
    ));
    w.objects.push(Sphere::init());
    let r = Ray::new(point(0, 0, fx(-5.0)), vector(0, 0, fx(1.0)));
    let hits = w.intersect(&r);
    let times: Vec<i64> = hits.iter().map(|i| i.t).collect();
    assert_eq!(times, vec![fx(4.0), fx(6.0), fx(14.0), fx(16.0)]);
    let objects: Vec<usize> = hits.iter().map(|i| i.object).collect();
    assert_eq!(objects, vec![1, 1, 0, 0]);
}

#[test]
fn shading_an_intersection() {
    let w = World::default();
    let r = Ray::new(point(0, 0, fx(-5.0)), vector(0, 0, fx(1.0)));
    let comps = w.prepare_computations(Intersection { t: fx(4.0), object: 0 }, &r);
    assert_eq!(comps.point, point(0, 0, fx(-1.0)));
    assert_eq!(comps.eyev, vector(0, 0, fx(-1.0)));
    assert_eq!(comps.normalv, vector(0, 0, fx(-1.0)));
    let c = w.shade_hit(&comps);
    assert!(close(c.red, 0.38066, 1e-4));
    assert!(close(c.green, 0.47583, 1e-4));
    assert!(close(c.blue, 0.2855, 1e-4));
}

fn white_light_at(z: f64, y: f64) -> Light {
    Light { position: point(0, fx(y), fx(z)), intensity: Color::new(fx(1.0), fx(1.0), fx(1.0)) }
}

#[test]
fn lighting_with_eye_between_light_and_surface() {
    let m = Material::init();
    let c = lighting(&m, &white_light_at(-10.0, 0.0), point(0, 0, 0), vector(0, 0, fx(-1.0)), vector(0, 0, fx(-1.0)));
    assert!(close(c.red, 1.9, 1e-4));
    assert!(close(c.green, 1.9, 1e-4));
    assert!(close(c.blue, 1.9, 1e-4));
}

#[test]
fn lighting_with_light_behind_surface() {
    let m = Material::init();
    let c = lighting(&m, &white_light_at(10.0, 0.0), point(0, 0, 0), vector(0, 0, fx(-1.0)), vector(0, 0, fx(-1.0)));
    assert_eq!(c, Color::new(fx(0.1), fx(0.1), fx(0.1)));
}

#[test]
fn lighting_with_eye_in_reflection_path() {
    let m = Material::init();
    let eye = vector(0, fx(-0.70711), fx(-0.70711));
    let c = lighting(&m, &white_light_at(-10.0, 10.0), point(0, 0, 0), eye, vector(0, 0, fx(-1.0)));
    assert!(close(c.red, 1.6364, 1e-3));
    assert!(close(c.blue, 1.6364, 1e-3));
}
