use aurars::pipe::Pipe;

#[test]
fn test_pipe() {
    let result: i32 = Pipe::new(1).pipe(|x: i32| x + 1).pipe(|x: i32| x * 2).into_inner();
    assert_eq!(result, 4);
}

#[test]
fn test_pipe_identity_step() {
    let result: i32 = Pipe::new(7).pipe(|x: i32| x).into_inner();
    assert_eq!(result, 7);
}

#[test]
fn test_pipe_composition() {
    let f = |x: i32| x + 1;
    let g = |x: i32| x * 2;

    let chained: i32 = Pipe::new(1).pipe(f).pipe(g).into_inner();
    let composed: i32 = Pipe::new(1).pipe(|x| g(f(x))).into_inner();
    assert_eq!(chained, composed);
    assert_eq!(chained, g(f(1)));
}

#[test]
fn test_pipe_changes_type() {
    let result: usize = Pipe::new("hello").pipe(|s: &str| s.len()).into_inner();
    assert_eq!(result, 5);
}
