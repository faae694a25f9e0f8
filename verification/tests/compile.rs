use compute_runner::compile::{compile_compute_shader, Compilation, CompileCommand, CompileError};
use compute_runner::driver::Reply;
use compute_runner::log::LOG_CAPACITY;

/// A driver that compiles and links as it is told to, and records what it was asked.
struct ScriptedDriver {
    compiles: bool,
    links: bool,
    log: &'static [u8],
    next_handle: u32,
    asked: Vec<CompileCommand>,
    sources: Vec<Vec<u8>>,
}

fn driver(compiles: bool, links: bool, log: &'static [u8]) -> ScriptedDriver {
    ScriptedDriver { compiles, links, log, next_handle: 1, asked: Vec::new(), sources: Vec::new() }
}

fn log_buffer(log: &[u8], max_len: usize) -> Vec<u8> {
    let mut buf = vec![0u8; LOG_CAPACITY];
    let n = log.len().min(max_len);
    buf[..n].copy_from_slice(&log[..n]);
    buf
}

fn perform(driver: &mut ScriptedDriver, compilation: &Compilation, command: CompileCommand) -> Reply {
    driver.asked.push(command);
    match command {
        CompileCommand::CreateComputeShader | CompileCommand::CreateProgram => {
            let handle = driver.next_handle;
            driver.next_handle += 1;
            Reply::Handle(handle)
        }
        CompileCommand::ShaderSource { .. } => {
            driver.sources.push(compilation.text().to_vec());
            Reply::Done
        }
        CompileCommand::CompileShader { .. }
        | CompileCommand::AttachShader { .. }
        | CompileCommand::LinkProgram { .. } => Reply::Done,
        CompileCommand::GetCompileStatus { .. } => Reply::Status(driver.compiles as i32),
        CompileCommand::GetLinkStatus { .. } => Reply::Status(driver.links as i32),
        CompileCommand::GetShaderLog { max_len, .. }
        | CompileCommand::GetProgramLog { max_len, .. } => Reply::Bytes(log_buffer(driver.log, max_len)),
    }
}

fn build(driver: &mut ScriptedDriver, source: &[u8]) -> Result<u32, CompileError> {
    let mut compilation = compile_compute_shader(source);
    while let Some(command) = compilation.command() {
        let reply = perform(driver, &compilation, command);
        assert!(compilation.advance(reply));
    }
    compilation.outcome().unwrap()
}

#[test]
fn good_source_gives_the_program() {
    let mut d = driver(true, true, b"");
    assert_eq!(build(&mut d, b"#version 430\nvoid main() {}\n"), Ok(2));
    assert_eq!(
        d.asked,
        vec![
            CompileCommand::CreateComputeShader,
            CompileCommand::ShaderSource { shader: 1 },
            CompileCommand::CompileShader { shader: 1 },
            CompileCommand::GetCompileStatus { shader: 1 },
            CompileCommand::CreateProgram,
            CompileCommand::AttachShader { program: 2, shader: 1 },
            CompileCommand::LinkProgram { program: 2 },
            CompileCommand::GetLinkStatus { program: 2 },
        ]
    );
}

#[test]
fn source_reaches_the_driver_terminated() {
    let mut d = driver(true, true, b"");
    build(&mut d, b"void main() {}").unwrap();
    assert_eq!(d.sources, vec![b"void main() {}\0".to_vec()]);
}

#[test]
fn unterminated_statement_fails_to_compile_with_text() {
    let mut d = driver(false, true, b"0:3(1): error: syntax error, unexpected end of file");
    let outcome = build(&mut d, b"#version 430\nvoid main() { uint x = 1 \n");
    match outcome {
        Err(CompileError::ShaderCompileFailed(log)) => {
            assert!(!log.is_empty());
            assert_eq!(log, b"0:3(1): error: syntax error, unexpected end of file".to_vec());
        }
        other => panic!("{:?}", other),
    }
}

#[test]
fn compile_failure_creates_no_program() {
    let mut d = driver(false, true, b"bad");
    assert_eq!(build(&mut d, b"x"), Err(CompileError::ShaderCompileFailed(b"bad".to_vec())));
    assert_eq!(
        d.asked,
        vec![
            CompileCommand::CreateComputeShader,
            CompileCommand::ShaderSource { shader: 1 },
            CompileCommand::CompileShader { shader: 1 },
            CompileCommand::GetCompileStatus { shader: 1 },
            CompileCommand::GetShaderLog { shader: 1, max_len: 10239 },
        ]
    );
}

#[test]
fn shader_that_does_not_link_fails_with_text() {
    let mut d = driver(true, false, b"error: no entry point");
    let outcome = build(&mut d, b"#version 430\nvoid helper() {}\n");
    match outcome {
        Err(CompileError::LinkFailed(log)) => {
            assert!(!log.is_empty());
            assert_eq!(log, b"error: no entry point".to_vec());
        }
        other => panic!("{:?}", other),
    }
    assert_eq!(d.asked.len(), 9);
    assert_eq!(d.asked[8], CompileCommand::GetProgramLog { program: 2, max_len: 10239 });
}

#[test]
fn failure_with_a_silent_driver_has_empty_text() {
    let mut d = driver(false, true, b"");
    assert_eq!(build(&mut d, b"x"), Err(CompileError::ShaderCompileFailed(Vec::new())));
}

#[test]
fn any_status_but_zero_counts_as_success() {
    for status in [1, -1, 7, i32::MAX, i32::MIN] {
        let mut c = compile_compute_shader(b"x");
        assert!(c.advance(Reply::Handle(4)));
        assert!(c.advance(Reply::Done));
        assert!(c.advance(Reply::Done));
        assert!(c.advance(Reply::Status(status)));
        assert_eq!(c.command(), Some(CompileCommand::CreateProgram));
        assert!(c.advance(Reply::Handle(9)));
        assert!(c.advance(Reply::Done));
        assert!(c.advance(Reply::Done));
        assert!(c.advance(Reply::Status(status)));
        assert_eq!(c.command(), None);
        assert_eq!(c.outcome(), Some(Ok(9)));
    }
}

#[test]
fn long_log_is_cut_at_the_bound() {
    let mut c = compile_compute_shader(b"x");
    assert!(c.advance(Reply::Handle(1)));
    assert!(c.advance(Reply::Done));
    assert!(c.advance(Reply::Done));
    assert!(c.advance(Reply::Status(0)));
    assert!(c.advance(Reply::Bytes(vec![b'e'; 20000])));
    assert_eq!(c.outcome(), Some(Err(CompileError::ShaderCompileFailed(vec![b'e'; 10239]))));
}

#[test]
fn reply_of_another_kind_changes_nothing() {
    let mut c = compile_compute_shader(b"x");
    assert!(!c.advance(Reply::Done));
    assert!(!c.advance(Reply::Status(1)));
    assert!(!c.advance(Reply::Bytes(vec![1, 2])));
    assert_eq!(c.command(), Some(CompileCommand::CreateComputeShader));
    assert!(c.advance(Reply::Handle(3)));
    assert!(!c.advance(Reply::Handle(4)));
    assert_eq!(c.command(), Some(CompileCommand::ShaderSource { shader: 3 }));
    assert_eq!(c.outcome(), None);
}

#[test]
fn nothing_is_pending_before_the_outcome_only_at_the_end() {
    let mut c = compile_compute_shader(b"x");
    let replies = [
        Reply::Handle(1),
        Reply::Done,
        Reply::Done,
        Reply::Status(1),
        Reply::Handle(2),
        Reply::Done,
        Reply::Done,
    ];
    for reply in replies {
        assert!(c.command().is_some());
        assert!(c.advance(reply));
    }
    assert!(c.command().is_some());
    assert_eq!(c.outcome(), None);
}

#[test]
fn finished_compilation_takes_no_reply() {
    let mut d = driver(true, true, b"");
    let mut c = compile_compute_shader(b"x");
    while let Some(command) = c.command() {
        let reply = perform(&mut d, &c, command);
        assert!(c.advance(reply));
    }
    assert!(!c.advance(Reply::Done));
    assert!(!c.advance(Reply::Handle(5)));
    assert!(!c.advance(Reply::Status(0)));
    assert!(!c.advance(Reply::Bytes(b"late".to_vec())));
    assert_eq!(c.outcome(), Some(Ok(2)));
}

#[test]
fn compilation_ends_within_nine_replies() {
    for (compiles, links, expected) in [(true, true, 8), (false, true, 5), (true, false, 9), (false, false, 5)] {
        let mut d = driver(compiles, links, b"log");
        let _ = build(&mut d, b"x");
        assert_eq!(d.asked.len(), expected);
    }
}
