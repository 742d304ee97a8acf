use consolet::Console;

#[test]
fn hello_world_scenario() {
    let mut console = Console::builder().stdout_tty(true).build();
    console.write("Hello, world!\n".as_bytes()).unwrap();
    console.write_err("error: no listeners\n".as_bytes()).unwrap();

    let stdout = console.stdout_buffer().unwrap();
    assert_eq!(stdout.as_slice(), "Hello, world!\n".as_bytes());
    assert!(stdout.tty());

    let stderr = console.stderr_buffer().unwrap();
    assert_eq!(stderr.as_slice(), "error: no listeners\n".as_bytes());

    let stdin = console.stdin_buffer().unwrap();
    assert!(stdin.is_empty());
}

#[test]
fn stdout_and_stderr_do_not_interfere() {
    let mut console = Console::builder().build();
    console.write(&[1, 2, 3]).unwrap();
    assert!(console.stderr_buffer().unwrap().is_empty());
    console.write_err(&[9]).unwrap();
    assert_eq!(console.stdout_buffer().unwrap().as_slice(), &[1, 2, 3]);
    assert_eq!(console.stderr_buffer().unwrap().as_slice(), &[9]);
}

#[test]
fn write_reports_the_full_length() {
    let mut console = Console::builder().build();
    let n = console.write(&[5; 17]).unwrap();
    assert_eq!(n, 17);
}

#[test]
fn builder_storage_comes_back_with_the_writes() {
    let captured: Vec<u8> = vec![b'>'];
    let mut console = Console::builder().stdout(captured).stderr_tty(true).build();
    console.write(b" out").unwrap();
    let (stdin, stdout, stderr) = console.into_buffers().unwrap();
    assert_eq!(stdout.into_vec(), b"> out".to_vec());
    assert!(stdin.is_empty());
    assert!(!stdin.tty());
    assert!(stderr.tty());
}

#[test]
fn vectored_write_concatenates_in_order() {
    let mut console = Console::builder().build();
    let parts: Vec<Vec<u8>> = vec![b"a".to_vec(), b"bc".to_vec(), Vec::new()];
    let n = console.write_vectored(&parts).unwrap();
    assert_eq!(n, 3);
    assert_eq!(console.stdout_buffer().unwrap().as_slice(), b"abc");

    let n = console.write_err_vectored(&parts).unwrap();
    assert_eq!(n, 3);
    assert_eq!(console.stderr_buffer().unwrap().as_slice(), b"abc");
}

#[test]
fn reading_consumes_supplied_stdin() {
    let input = b"line one".to_vec();
    let mut console = Console::builder().stdin(input).stdin_tty(true).build();
    assert!(console.stdin_buffer().unwrap().tty());
    let first = console.read_stdin(5).unwrap();
    assert_eq!(first, b"line ".to_vec());
    let rest = console.read_stdin(100).unwrap();
    assert_eq!(rest, b"one".to_vec());
    let done = console.read_stdin(1).unwrap();
    assert!(done.is_empty());
}

#[test]
fn flush_succeeds_and_changes_nothing() {
    let mut console = Console::builder().build();
    console.write(b"kept").unwrap();
    console.flush().unwrap();
    console.flush_err().unwrap();
    assert_eq!(console.stdout_buffer().unwrap().as_slice(), b"kept");
}

#[test]
fn system_console_is_not_internal() {
    let console = Console::from_system().unwrap();
    assert!(!console.is_internal());
    assert!(console.stdout_buffer().is_none());
    assert!(console.into_buffers().is_none());

    let mut console = Console::default();
    assert!(!console.is_internal());
    let n = console.write(&[]).unwrap();
    assert_eq!(n, 0);
}
