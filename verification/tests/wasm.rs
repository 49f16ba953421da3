use wasi_pipes::{mem2pipes2mem, new_processor_from_bytes, strings2pipes, CtxProcess};
use wasi_pipes::errors::{PipesError, StageErrorKind};

/// A WASI program that copies its whole standard input to its standard
/// output, chunk by chunk.
const PASS_THROUGH: &str = r#"
(module
  (import "wasi_snapshot_preview1" "fd_read"
    (func $fd_read (param i32 i32 i32 i32) (result i32)))
  (import "wasi_snapshot_preview1" "fd_write"
    (func $fd_write (param i32 i32 i32 i32) (result i32)))
  (memory (export "memory") 2)
  (func (export "_start")
    (local $n i32)
    (block $done
      (loop $again
        (i32.store (i32.const 0) (i32.const 16))
        (i32.store (i32.const 4) (i32.const 65536))
        (br_if $done
          (i32.ne
            (call $fd_read (i32.const 0) (i32.const 0) (i32.const 1) (i32.const 8))
            (i32.const 0)))
        (local.set $n (i32.load (i32.const 8)))
        (br_if $done (i32.eqz (local.get $n)))
        (i32.store (i32.const 4) (local.get $n))
        (br_if $done
          (i32.ne
            (call $fd_write (i32.const 1) (i32.const 0) (i32.const 1) (i32.const 12))
            (i32.const 0)))
        (br $again))))
)
"#;

/// A WASI program that writes its whole environment block (the
/// NUL-separated `key=value` strings) to its standard output.
const ENV_DUMP: &str = r#"
(module
  (import "wasi_snapshot_preview1" "environ_sizes_get"
    (func $sizes (param i32 i32) (result i32)))
  (import "wasi_snapshot_preview1" "environ_get"
    (func $get (param i32 i32) (result i32)))
  (import "wasi_snapshot_preview1" "fd_write"
    (func $fd_write (param i32 i32 i32 i32) (result i32)))
  (memory (export "memory") 2)
  (func (export "_start")
    (drop (call $sizes (i32.const 0) (i32.const 4)))
    (drop (call $get (i32.const 16) (i32.const 4096)))
    (i32.store (i32.const 8) (i32.const 4096))
    (i32.store (i32.const 12) (i32.load (i32.const 4)))
    (drop (call $fd_write (i32.const 1) (i32.const 8) (i32.const 1) (i32.const 0))))
)
"#;

/// A program whose entrypoint aborts at once.
const TRAPPER: &str = "(module (func (export \"_start\") unreachable))";

/// A program without the expected entrypoint.
const NO_ENTRY: &str = "(module (func (export \"helper\")))";

fn no_pairs() -> Vec<(String, String)> {
    Vec::new()
}

fn pass_through_stage() -> CtxProcess {
    new_processor_from_bytes(PASS_THROUGH.as_bytes(), &no_pairs(), &no_pairs()).unwrap()
}

fn run(units: &mut Vec<CtxProcess>, input: &[u8]) -> Result<Vec<u8>, wasi_pipes::errors::PipeError> {
    let mut ibuf: Vec<u8> = input.to_vec();
    let mut obuf: Vec<u8> = Vec::new();
    mem2pipes2mem(units, &mut ibuf, &mut obuf)?;
    Ok(obuf)
}

#[test]
fn pass_through_round_trip_empty() {
    let mut units = vec![pass_through_stage(), pass_through_stage()];
    assert_eq!(run(&mut units, b"").unwrap(), b"");
}

#[test]
fn pass_through_round_trip_one_byte() {
    let mut units = vec![pass_through_stage(), pass_through_stage()];
    assert_eq!(run(&mut units, b"z").unwrap(), b"z");
}

#[test]
fn pass_through_round_trip_large() {
    let input: Vec<u8> = (0..1_200_000u32).map(|i| (i.wrapping_mul(31) % 251) as u8).collect();
    let mut units = vec![pass_through_stage(), pass_through_stage()];
    assert_eq!(run(&mut units, &input).unwrap(), input);
}

#[test]
fn stage_reuse_with_fresh_context_each_run() {
    let mut units = vec![pass_through_stage()];
    assert_eq!(run(&mut units, b"first input").unwrap(), b"first input");
    assert_eq!(run(&mut units, b"2nd").unwrap(), b"2nd");
}

#[test]
fn trap_is_reported_with_position() {
    let mut units = vec![pass_through_stage(),
        new_processor_from_bytes(TRAPPER.as_bytes(), &no_pairs(), &no_pairs()).unwrap()];
    let e = run(&mut units, b"abc").unwrap_err();
    assert_eq!(e.stage, 2);
    assert_eq!(e.error.kind, StageErrorKind::Trap);
}

#[test]
fn missing_entrypoint_is_reported() {
    let mut units = vec![
        new_processor_from_bytes(NO_ENTRY.as_bytes(), &no_pairs(), &no_pairs()).unwrap(),
    ];
    let e = run(&mut units, b"abc").unwrap_err();
    assert_eq!(e.stage, 1);
    assert_eq!(e.error.kind, StageErrorKind::Entrypoint);
}

#[test]
fn invalid_image_fails_to_compile() {
    match new_processor_from_bytes(b"this is not a program", &no_pairs(), &no_pairs()) {
        Err(e) => assert_eq!(e.kind, StageErrorKind::Compile),
        Ok(_) => panic!("an invalid image must not compile"),
    }
}

#[test]
fn missing_program_file_is_a_compile_error_at_its_position() {
    let lines = vec![
        "{\"module_path\": \"/no/such/dir/no-such-program.wasm\"}".to_string(),
    ];
    match strings2pipes(&lines) {
        Err(PipesError::Assembly(pe)) => {
            assert_eq!(pe.stage, 1);
            assert_eq!(pe.error.kind, StageErrorKind::Compile);
        }
        _ => panic!("expected an assembly failure"),
    }
}

#[test]
fn env_last_wins_observed_in_sandbox() {
    let env = vec![
        ("k".to_string(), "v1".to_string()),
        ("k".to_string(), "v2".to_string()),
    ];
    let mut units =
        vec![new_processor_from_bytes(ENV_DUMP.as_bytes(), &env, &no_pairs()).unwrap()];
    let out = run(&mut units, b"").unwrap();
    let text = String::from_utf8(out).unwrap();
    let vars: Vec<&str> = text.split('\0').filter(|s| !s.is_empty()).collect();
    assert_eq!(vars, vec!["k=v2"]);
}

#[test]
fn stage_env_pairs_are_deduplicated_last_wins() {
    let env = vec![
        ("k".to_string(), "v1".to_string()),
        ("k".to_string(), "v2".to_string()),
    ];
    let p = new_processor_from_bytes(PASS_THROUGH.as_bytes(), &env, &no_pairs()).unwrap();
    assert_eq!(p.env_pairs(), &vec![("k".to_string(), "v2".to_string())]);
}
