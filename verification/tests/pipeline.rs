use wasi_pipes::{mem2pipes2mem, read2pipes2write, Process};
use wasi_pipes::errors::{RunError, StageError, StageErrorKind};

enum TestStage {
    Upper,
    Reverse,
    Trap,
    Marker { ran: bool },
}

impl Process for TestStage {
    fn process(&mut self, i: &[u8], o: &mut Vec<u8>) -> Result<(), StageError> {
        match self {
            TestStage::Upper => {
                o.clear();
                o.extend(i.iter().map(|b| b.to_ascii_uppercase()));
                Ok(())
            }
            TestStage::Reverse => {
                o.clear();
                o.extend(i.iter().rev());
                Ok(())
            }
            TestStage::Trap => Err(StageError {
                kind: StageErrorKind::Trap,
                msg: String::from("forced trap"),
            }),
            TestStage::Marker { ran } => {
                *ran = true;
                o.clear();
                o.extend_from_slice(i);
                Ok(())
            }
        }
    }
}

fn run(units: &mut Vec<TestStage>, input: &[u8]) -> Result<Vec<u8>, wasi_pipes::errors::PipeError> {
    let mut ibuf: Vec<u8> = input.to_vec();
    let mut obuf: Vec<u8> = Vec::new();
    mem2pipes2mem(units, &mut ibuf, &mut obuf)?;
    Ok(obuf)
}

#[test]
fn identity_empty_pipeline_len_0() {
    let mut units: Vec<TestStage> = Vec::new();
    assert_eq!(run(&mut units, b"").unwrap(), b"");
}

#[test]
fn identity_empty_pipeline_len_1() {
    let mut units: Vec<TestStage> = Vec::new();
    assert_eq!(run(&mut units, b"x").unwrap(), b"x");
}

#[test]
fn identity_empty_pipeline_large() {
    let input: Vec<u8> = (0..1_200_000u32).map(|i| (i % 251) as u8).collect();
    let mut units: Vec<TestStage> = Vec::new();
    assert_eq!(run(&mut units, &input).unwrap(), input);
}

#[test]
fn composition_matches_sequential_application() {
    let input = b"Hello, pipeline!";
    let mut ab: Vec<TestStage> = vec![TestStage::Upper, TestStage::Reverse];
    let chained = run(&mut ab, input).unwrap();

    let mut a_only: Vec<TestStage> = vec![TestStage::Upper];
    let mid = run(&mut a_only, input).unwrap();
    let mut b_only: Vec<TestStage> = vec![TestStage::Reverse];
    let sequential = run(&mut b_only, &mid).unwrap();

    assert_eq!(chained, sequential);
    assert_eq!(chained, b"!ENILEPIP ,OLLEH".to_vec());
}

#[test]
fn fail_fast_skips_later_stages() {
    let mut units: Vec<TestStage> = vec![
        TestStage::Upper,
        TestStage::Trap,
        TestStage::Marker { ran: false },
    ];
    let e = run(&mut units, b"abc").unwrap_err();
    assert_eq!(e.stage, 2);
    assert_eq!(e.error.kind, StageErrorKind::Trap);
    match &units[2] {
        TestStage::Marker { ran } => assert!(!ran, "a stage after the trap was run"),
        _ => panic!("marker stage missing"),
    }
}

#[test]
fn buffer_reuse_does_not_leak_between_runs() {
    let mut units: Vec<TestStage> = vec![TestStage::Upper];
    let mut ibuf: Vec<u8> = Vec::new();
    let mut obuf: Vec<u8> = Vec::new();

    ibuf.extend_from_slice(b"aaaaaaaaaaaaaaaaaaaaaaaaaaaaaaaa");
    mem2pipes2mem(&mut units, &mut ibuf, &mut obuf).unwrap();
    assert_eq!(obuf, b"AAAAAAAAAAAAAAAAAAAAAAAAAAAAAAAA".to_vec());

    ibuf.clear();
    ibuf.extend_from_slice(b"bb");
    mem2pipes2mem(&mut units, &mut ibuf, &mut obuf).unwrap();
    assert_eq!(obuf, b"BB".to_vec());
}

#[test]
fn read_write_round_trip_over_streams() {
    let input = b"stream me".to_vec();
    let mut reader: &[u8] = &input;
    let mut writer: Vec<u8> = Vec::new();
    let mut units: Vec<TestStage> = vec![TestStage::Reverse];
    let mut ibuf: Vec<u8> = Vec::new();
    let mut obuf: Vec<u8> = Vec::new();
    read2pipes2write(&mut reader, &mut units, &mut writer, &mut ibuf, &mut obuf).unwrap();
    assert_eq!(writer, b"em maerts".to_vec());
}

#[test]
fn pipeline_error_reports_io_kinds() {
    let input = b"x".to_vec();
    let mut reader: &[u8] = &input;
    let mut units: Vec<TestStage> = vec![TestStage::Trap];
    let mut writer: Vec<u8> = Vec::new();
    let mut ibuf: Vec<u8> = Vec::new();
    let mut obuf: Vec<u8> = Vec::new();
    match read2pipes2write(&mut reader, &mut units, &mut writer, &mut ibuf, &mut obuf) {
        Err(RunError::Pipe(e)) => {
            assert_eq!(e.stage, 1);
            assert_eq!(e.error.kind, StageErrorKind::Trap);
        }
        _ => panic!("expected the pipeline error"),
    }
    assert!(writer.is_empty(), "no output may be produced on failure");
}
