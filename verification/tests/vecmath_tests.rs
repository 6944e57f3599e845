use mnist_int8::vecmath::{vector_add, vector_dot, matrix_mult};

#[test]
fn test_vector_add() {
    let a = [1, 2, 3, 4];
    let b = [5, 6, 7, 8];
    let mut c = vec![0u32; 4];

    vector_add(&a, &b, &mut c);

    assert_eq!(c, [6, 8, 10, 12]);
}

#[test]
fn test_vector_dot() {
    let a = [1, 2, 3, 4];
    let b = [5, 6, 7, 8];

    let result = vector_dot(&a, &b);

    assert_eq!(result, 70); // 1*5 + 2*6 + 3*7 + 4*8 = 5 + 12 + 21 + 32 = 70
}

#[test]
fn test_matrix_mult() {
    let m1 = [1, 2, 3, 4];
    let m2 = [5, 6, 7, 8];
    let mut result = vec![0u32; 4];

    matrix_mult(&m1, &m2, &mut result, 2);

    assert_eq!(result, [19, 22, 43, 50]);
}

#[test]
fn vector_add_leaves_tail_untouched() {
    let a = [1u32, 2];
    let b = [10u32, 20];
    let mut c = vec![7u32; 4];

    vector_add(&a, &b, &mut c);

    assert_eq!(c, [11, 22, 7, 7]);
}

#[test]
fn vector_dot_empty_is_zero() {
    let a: [u32; 0] = [];
    let b: [u32; 0] = [];
    assert_eq!(vector_dot(&a, &b), 0);
}
