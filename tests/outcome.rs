use kuori::outcome::{chunk_step, establish_outcome, status_outcome, ChunkStep};
use kuori::KuoriError;

#[test]
fn status_zero_is_success() {
    assert_eq!(status_outcome(0), Ok(()));
}

#[test]
fn status_one_is_command_error() {
    assert_eq!(status_outcome(1), Err(KuoriError::CommandExecution { status: 1 }));
}

#[test]
fn status_127_is_command_error() {
    assert_eq!(status_outcome(127), Err(KuoriError::CommandExecution { status: 127 }));
}

#[test]
fn read_results_decide_the_copy() {
    assert_eq!(chunk_step(None, 4096), ChunkStep::Fail);
    assert_eq!(chunk_step(Some(0), 4096), ChunkStep::Done);
    assert_eq!(chunk_step(Some(17), 4096), ChunkStep::Write(17));
    assert_eq!(chunk_step(Some(4096), 4096), ChunkStep::Write(4096));
    assert_eq!(chunk_step(Some(4097), 4096), ChunkStep::Fail);
}

#[test]
fn establishment_errors_name_the_failed_step() {
    assert_eq!(establish_outcome(false, false, false), Err(KuoriError::Handshake));
    assert_eq!(establish_outcome(true, false, false), Err(KuoriError::Authentication));
    assert_eq!(establish_outcome(true, true, false), Err(KuoriError::Authentication));
    assert_eq!(establish_outcome(true, true, true), Ok(()));
}
