use std::cell::RefCell;

use bootstrap::config::Config;
use bootstrap::error::SequencerError;
use bootstrap::exit::exit_report;
use bootstrap::request::ExecutionRequest;
use bootstrap::sequencer::run;

/// What the operations handed to a run were asked to do, in order.
#[derive(Debug, PartialEq, Eq)]
enum Call {
    Update(Config),
    Install(Config),
    Bootstrap(Config),
    Replace(ExecutionRequest),
}

/// Runs the sequencer with operations that note each call and answer as told.
fn drive(
    config: Config,
    program: &str,
    update: Result<(), String>,
    install: Result<(), String>,
    bootstrap: Result<(), String>,
    replace: &str,
) -> (Result<(), SequencerError>, Vec<Call>) {
    let calls: RefCell<Vec<Call>> = RefCell::new(Vec::new());
    let result = run(
        &config,
        program,
        |c: Config| {
            calls.borrow_mut().push(Call::Update(c));
            update
        },
        |c: Config| {
            calls.borrow_mut().push(Call::Install(c));
            install
        },
        |c: Config| {
            calls.borrow_mut().push(Call::Bootstrap(c));
            bootstrap
        },
        |request: ExecutionRequest| {
            calls.borrow_mut().push(Call::Replace(request));
            replace.to_string()
        },
    );
    (result, calls.into_inner())
}

fn request(program: &str, args: &[&str]) -> ExecutionRequest {
    ExecutionRequest {
        program: program.to_string(),
        args: args.iter().map(|a| a.to_string()).collect(),
    }
}

#[test]
fn first_stage_updates_then_hands_over_to_second() {
    let config = Config { stage: 1, debug: false };
    let (result, calls) = drive(config, "/sbin/bootstrap", Ok(()), Ok(()), Ok(()), "no such file");
    assert_eq!(
        calls,
        vec![Call::Update(config), Call::Replace(request("/sbin/bootstrap", &["-s", "2"]))]
    );
    assert_eq!(result, Err(SequencerError::ChainFailure("no such file".to_string())));
}

#[test]
fn first_stage_of_debug_run_skips_update_and_forwards_debug() {
    let config = Config { stage: 1, debug: true };
    let failing = Err("must not be called".to_string());
    let (result, calls) = drive(config, "bootstrap", failing, Ok(()), Ok(()), "busy");
    assert_eq!(calls, vec![Call::Replace(request("bootstrap", &["-s", "2", "-d"]))]);
    assert_eq!(result, Err(SequencerError::ChainFailure("busy".to_string())));
}

#[test]
fn last_stage_completes_without_hand_over() {
    let config = Config { stage: 3, debug: false };
    let (result, calls) = drive(config, "bootstrap", Ok(()), Ok(()), Ok(()), "unused");
    assert_eq!(calls, vec![Call::Bootstrap(config)]);
    assert_eq!(result, Ok(()));
    let report = exit_report(&result);
    assert_eq!(report.code, 0);
    assert_eq!(report.error, None);
}

#[test]
fn stage_beyond_the_last_is_unknown() {
    let config = Config { stage: 4, debug: false };
    let (result, calls) = drive(config, "bootstrap", Ok(()), Ok(()), Ok(()), "unused");
    assert!(calls.is_empty());
    assert_eq!(result, Err(SequencerError::UnknownStage { stage: 4, supported: 3 }));
    let report = exit_report(&result);
    assert_eq!(report.code, 1);
    let line = report.error.unwrap();
    assert_eq!(line, "unknown stage '4' only 3 stage(s) are supported");
    assert!(line.contains("4") && line.contains("3"));
}

#[test]
fn failing_install_is_reported_unchanged() {
    let config = Config { stage: 2, debug: false };
    let (result, calls) =
        drive(config, "bootstrap", Ok(()), Err("disk full".to_string()), Ok(()), "unused");
    assert_eq!(calls, vec![Call::Install(config)]);
    assert_eq!(result, Err(SequencerError::StageFailure("disk full".to_string())));
    let report = exit_report(&result);
    assert_eq!(report.code, 1);
    assert_eq!(report.error, Some("disk full".to_string()));
}

#[test]
fn stage_zero_is_unknown() {
    for debug in [false, true] {
        let config = Config { stage: 0, debug };
        let (result, calls) = drive(config, "bootstrap", Ok(()), Ok(()), Ok(()), "unused");
        assert!(calls.is_empty());
        assert_eq!(result, Err(SequencerError::UnknownStage { stage: 0, supported: 3 }));
    }
}

#[test]
fn largest_stage_number_is_unknown() {
    let config = Config { stage: u32::MAX, debug: true };
    let (result, calls) = drive(config, "bootstrap", Ok(()), Ok(()), Ok(()), "unused");
    assert!(calls.is_empty());
    let error = result.unwrap_err();
    assert_eq!(error, SequencerError::UnknownStage { stage: u32::MAX, supported: 3 });
    assert_eq!(error.message(), "unknown stage '4294967295' only 3 stage(s) are supported");
}

#[test]
fn second_stage_installs_then_hands_over_to_third() {
    for debug in [false, true] {
        let config = Config { stage: 2, debug };
        let (result, calls) = drive(config, "/bin/bs", Ok(()), Ok(()), Ok(()), "denied");
        let args: &[&str] = if debug { &["-s", "3", "-d"] } else { &["-s", "3"] };
        assert_eq!(calls, vec![Call::Install(config), Call::Replace(request("/bin/bs", args))]);
        assert_eq!(result, Err(SequencerError::ChainFailure("denied".to_string())));
    }
}

#[test]
fn each_known_stage_calls_its_own_collaborator_only() {
    let expected = [Call::Update as fn(Config) -> Call, Call::Install, Call::Bootstrap];
    for stage in 1..=3u32 {
        let config = Config { stage, debug: false };
        let (_, calls) = drive(config, "bootstrap", Ok(()), Ok(()), Ok(()), "unused");
        assert_eq!(calls[0], expected[(stage - 1) as usize](config));
        let collaborators = calls.iter().filter(|c| !matches!(c, Call::Replace(_))).count();
        assert_eq!(collaborators, 1);
    }
}

#[test]
fn failing_stage_is_never_followed_by_a_hand_over() {
    for stage in 1..=3u32 {
        let config = Config { stage, debug: false };
        let fail = |text: &str| Err(text.to_string());
        let (result, calls) =
            drive(config, "bootstrap", fail("u"), fail("i"), fail("b"), "unused");
        assert_eq!(calls.len(), 1);
        assert!(!matches!(calls[0], Call::Replace(_)));
        let text = ["u", "i", "b"][(stage - 1) as usize];
        assert_eq!(result, Err(SequencerError::StageFailure(text.to_string())));
    }
}

#[test]
fn last_stage_of_debug_run_still_calls_bootstrap() {
    let config = Config { stage: 3, debug: true };
    let (result, calls) = drive(config, "bootstrap", Ok(()), Ok(()), Ok(()), "unused");
    assert_eq!(calls, vec![Call::Bootstrap(config)]);
    assert_eq!(result, Ok(()));
}

#[test]
fn failed_hand_over_is_the_error_of_the_run() {
    let config = Config { stage: 1, debug: false };
    let (result, _) = drive(
        config,
        "bootstrap",
        Ok(()),
        Ok(()),
        Ok(()),
        "couldn't exec process: No such file or directory",
    );
    let report = exit_report(&result);
    assert_eq!(report.code, 1);
    assert_eq!(
        report.error,
        Some("couldn't exec process: No such file or directory".to_string())
    );
}
