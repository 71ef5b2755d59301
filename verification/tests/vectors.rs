use std::collections::hash_map::DefaultHasher;
use std::hash::Hash;
use std::hash::Hasher;

use lcms2::fixed::Fixed;
use lcms2::mat3::Mat3;
use lcms2::vec3::Vec3;

/// The library's exact scalar for a double that is a whole multiple of
/// 1/65536, as all values in these tests are.
fn fx(v: f64) -> Fixed {
    let raw = (v * 65536.0).round();
    if raw.is_nan() {
        Fixed { raw: 0 }
    } else {
        Fixed { raw: raw as i64 }
    }
}

fn v3(x: f64, y: f64, z: f64) -> Vec3 {
    Vec3::new(fx(x), fx(y), fx(z))
}

fn m3(e: [f64; 9]) -> Mat3 {
    Mat3::from_array([
        fx(e[0]),
        fx(e[1]),
        fx(e[2]),
        fx(e[3]),
        fx(e[4]),
        fx(e[5]),
        fx(e[6]),
        fx(e[7]),
        fx(e[8]),
    ])
}

fn assert_vec3(expected: &Vec3, actual: &Vec3) {
    assert!(
        expected.x == actual.x,
        "Expected x to be {} but was {}",
        expected.x.raw,
        actual.x.raw
    );
    assert!(
        expected.y == actual.y,
        "Expected y to be {} but was {}",
        expected.y.raw,
        actual.y.raw
    );
    assert!(
        expected.z == actual.z,
        "Expected z to be {} but was {}",
        expected.z.raw,
        actual.z.raw
    );
}

fn calculate_hash<T: Hash>(t: &T) -> u64 {
    let mut hasher = DefaultHasher::new();
    t.hash(&mut hasher);
    hasher.finish()
}

#[test]
fn test_vec3_new() {
    let (x, y, z) = (1.0, 69.0, 420.0);

    let value = Vec3::new(fx(x), fx(y), fx(z));

    assert_vec3(&Vec3 { x: fx(x), y: fx(y), z: fx(z) }, &value);
}

#[test]
fn test_vec3_minus() {
    let left = v3(-1.0, 42.0, 421.0);
    let right = v3(-2.0, -27.0, 1.0);

    let result = left.minus(&right);

    assert_vec3(&v3(1.0, 69.0, 420.0), &result);
}

#[test]
fn test_vec3_cross() {
    let left = v3(2.0, 3.0, 4.0);
    let right = v3(3.0, 4.0, 2.0);

    let result = left.cross(&right);

    assert_vec3(&v3(-10.0, 8.0, -1.0), &result);
}

#[test]
fn test_vec3_dot() {
    let left = v3(2.0, 3.0, 4.0);
    let right = v3(3.0, 4.0, 2.0);

    let result = left.dot(&right);

    assert_eq!(fx(26.0), result);
}

#[test]
fn test_vec3_as_array() {
    let value = v3(1.0, 69.0, 420.0);

    let result = value.as_array();

    assert_eq!([fx(1.0), fx(69.0), fx(420.0)], result);
}

#[test]
fn test_vec3_add() {
    let left = v3(1.0, 69.0, 420.0);
    let right = v3(-2.0, -27.0, 1.0);

    let result = left.add(right);

    assert_vec3(&v3(-1.0, 42.0, 421.0), &result);
}

#[test]
fn test_vec3_add_assign() {
    let mut left = v3(1.0, 69.0, 420.0);
    let right = v3(-2.0, -27.0, 1.0);

    left.add_assign(right);

    assert_vec3(&v3(-1.0, 42.0, 421.0), &left);
}

#[test]
fn test_vec3_sub() {
    let left = v3(-1.0, 42.0, 421.0);
    let right = v3(-2.0, -27.0, 1.0);

    let result = left.sub(right);

    assert_vec3(&v3(1.0, 69.0, 420.0), &result);
}

#[test]
fn test_vec3_sub_assign() {
    let mut left = v3(-1.0, 42.0, 421.0);
    let right = v3(-2.0, -27.0, 1.0);

    left.sub_assign(right);

    assert_vec3(&v3(1.0, 69.0, 420.0), &left);
}

#[test]
fn test_vec3_mul() {
    let left = v3(2.0, 3.0, 4.0);
    let right = v3(3.0, 4.0, 2.0);

    let result = left.mul(right);

    assert_vec3(&v3(-10.0, 8.0, -1.0), &result);
}

#[test]
fn test_vec3_mul_assign() {
    let mut left = v3(2.0, 3.0, 4.0);
    let right = v3(3.0, 4.0, 2.0);

    left.mul_assign(right);

    assert_vec3(&v3(-10.0, 8.0, -1.0), &left);
}

#[test]
fn test_vec3_neg() {
    let value = v3(1.0, 69.0, 420.0);

    let result = value.neg();

    assert_eq!(v3(-1.0, -69.0, -420.0), result);
}

#[test]
fn test_vec3_fmt() {
    let actual = format!("The vector is {}", v3(-1.0, 0.5, 69.0).to_text());

    let expected = "The vector is (-1, 0.5, 69)";

    assert_eq!(expected, actual);
}

#[test]
fn test_vec3_hash_same_for_same_input() {
    let hash1 = calculate_hash(&v3(1.0, 69.0, 420.0));
    let hash2 = calculate_hash(&v3(1.0, 69.0, 420.0));

    assert_eq!(hash1, hash2);
}

#[test]
fn test_vec3_hash_same_for_same_input_with_nan() {
    let hash1 = calculate_hash(&v3(f64::NAN, 69.0, 420.0));
    let hash2 = calculate_hash(&v3(f64::NAN, 69.0, 420.0));

    assert_eq!(hash1, hash2);
}

#[test]
fn test_vec3_hash_different_for_different_input() {
    let hash1 = calculate_hash(&v3(1.0, 69.0, 420.0));
    let hash2 = calculate_hash(&v3(2.0, 3.0, 4.0));

    assert_ne!(hash1, hash2);
}

#[test]
fn test_vec3_from_f64_array() {
    let array = [1.0, 69.0, 420.0];

    let expected = v3(1.0, 69.0, 420.0);

    let actual: Vec3 = Vec3::from_array([fx(array[0]), fx(array[1]), fx(array[2])]);

    assert_eq!(expected, actual);
}

#[test]
fn test_vec3_into_f64_array() {
    let vector = v3(1.0, 69.0, 420.0);

    let expected = [fx(1.0), fx(69.0), fx(420.0)];

    let actual: [Fixed; 3] = vector.as_array();

    assert_eq!(expected, actual);
}

#[test]
fn test_mat3_is_identity_with_exact() {
    let matrix = m3([1.0, 0.0, 0.0, 0.0, 1.0, 0.0, 0.0, 0.0, 1.0]);
    assert!(matrix == Mat3::identity());
    assert!(matrix.is_identity());
}

#[test]
fn test_mat3_is_identity_with_close() {
    // is_identity takes each entry within one step of 1/65536 as exact.
    let matrix = m3([
        1.0 + 1.4e-5,
        0.0 - 1.0e-10,
        0.0 + 1.0e-10,
        0.0,
        1.0,
        0.0,
        0.0,
        0.0,
        1.0,
    ]);
    assert!(matrix.is_identity());
}

#[test]
fn test_mat3_is_identity_fails() {
    let matrix = m3([1.0, 0.0, 0.0 + 1.0e-4, 0.0, 1.0, 0.0, 0.0, 0.0, 1.0]);
    assert!(!matrix.is_identity());
}

#[test]
fn test_mat3_multiply_identity_with_identity_equals_identity() {
    let ident = Mat3::identity();

    let result = ident.per(ident);

    assert!(result.is_identity());
}

#[test]
fn test_mat3_multiply_matrix_with_identity_equals_original_matrix() {
    let matrix = m3([5.0, 6.0, -4.0, 7.0, 1.0, 1.0, -2.0, -9.0, 8.0]);
    let ident = Mat3::identity();

    let result = matrix.mul(ident);

    assert!(matrix == result);

    let result = ident.mul(matrix);

    assert!(matrix == result);
}

#[test]
fn test_mat3_multiply_skew_with_scale_equals_scaled_skew() {
    let skew = m3([1.0, 0.0, 0.0, 0.0, 1.0, 0.0, 4.0, -1.0, 1.0]);
    let scale = m3([3.0, 0.0, 0.0, 0.0, 3.0, 0.0, 0.0, 0.0, 1.0]);
    let expected = m3([3.0, 0.0, 0.0, 0.0, 3.0, 0.0, 12.0, -3.0, 1.0]);

    let actual = skew.mul(scale);

    assert_eq!(expected, actual);
}

#[test]
fn test_mat3_invert_returns_inverted_matrix() {
    let matrix = m3([2.0, 0.0, 0.0, 0.0, 2.0, 0.0, 4.0, -1.0, 1.0]);
    let expected = m3([0.5, 0.0, 0.0, 0.0, 0.5, 0.0, -2.0, 0.5, 1.0]);

    let actual = matrix.inverse().unwrap();

    assert_eq!(expected, actual);
}

#[test]
fn test_mat3_invert_with_determinant_too_small_returns_none() {
    let matrix = m3([0.0; 9]);

    let actual = matrix.inverse();

    assert!(actual.is_none());
}

#[test]
fn test_mat3_solve_vector_with_valid_matrix() {
    let vector = v3(-2.0, 3.0, 1.0);
    let matrix = m3([2.0, 0.0, 0.0, 0.0, 2.0, 0.0, 0.0, 0.0, 1.0]);
    let expected = v3(-1.0, 1.5, 1.0);

    let actual = matrix.solve(vector);

    assert_eq!(expected, actual.unwrap());
}

#[test]
fn test_mat3_solve_vector_with_invalid_matrix() {
    let vector = v3(-2.0, 3.0, 1.0);
    let matrix = m3([0.0; 9]);

    let actual = matrix.solve(vector);

    assert!(actual.is_none());
}

#[test]
fn test_mat3_from_vec3_array() {
    let array = [v3(5.0, 6.0, -4.0), v3(7.0, 1.0, 1.0), v3(-2.0, -9.0, 8.0)];
    let expected = m3([5.0, 6.0, -4.0, 7.0, 1.0, 1.0, -2.0, -9.0, 8.0]);

    let actual: Mat3 = Mat3::from_vec3_array(array);

    assert_eq!(expected, actual);
}

#[test]
fn test_mat3_from_f64_array() {
    let array = [5.0, 6.0, -4.0, 7.0, 1.0, 1.0, -2.0, -9.0, 8.0];
    let expected = Mat3 {
        vx: v3(5.0, 6.0, -4.0),
        vy: v3(7.0, 1.0, 1.0),
        vz: v3(-2.0, -9.0, 8.0),
    };

    let actual: Mat3 = m3(array);

    assert_eq!(expected, actual);
}

#[test]
fn test_mat3_into_vec3_array() {
    let matrix = m3([5.0, 6.0, -4.0, 7.0, 1.0, 1.0, -2.0, -9.0, 8.0]);
    let expected = [v3(5.0, 6.0, -4.0), v3(7.0, 1.0, 1.0), v3(-2.0, -9.0, 8.0)];

    let actual: [Vec3; 3] = matrix.as_vec3_array();

    assert_eq!(expected, actual);
}

#[test]
fn test_mat3_into_f64_array() {
    let matrix = m3([5.0, 6.0, -4.0, 7.0, 1.0, 1.0, -2.0, -9.0, 8.0]);
    let expected = [
        fx(5.0),
        fx(6.0),
        fx(-4.0),
        fx(7.0),
        fx(1.0),
        fx(1.0),
        fx(-2.0),
        fx(-9.0),
        fx(8.0),
    ];

    let actual: [Fixed; 9] = matrix.as_array();

    assert_eq!(expected, actual);
}

#[test]
fn test_mat3_multiply_assign_skew_with_scale_equals_scaled_skew() {
    let mut matrix = m3([1.0, 0.0, 0.0, 0.0, 1.0, 0.0, 4.0, -1.0, 1.0]);
    let scale = m3([3.0, 0.0, 0.0, 0.0, 3.0, 0.0, 0.0, 0.0, 1.0]);
    let expected = m3([3.0, 0.0, 0.0, 0.0, 3.0, 0.0, 12.0, -3.0, 1.0]);

    matrix.mul_assign(scale);

    assert_eq!(expected, matrix);
}
