use mnist_int8::io::{stdout, Stdout};

#[test]
fn test_hello() {
    println!("hello test!!!");
    assert_eq!(1, 1);
}

#[test]
fn stdout_collects_written_bytes() {
    let mut out: Stdout = stdout();
    out.write_str("Hello_world!");
    out.write_byte(10);
    let bytes = out.take_bytes();
    assert_eq!(bytes, b"Hello_world!\n");
    assert_eq!(out.take_bytes(), b"");
}
