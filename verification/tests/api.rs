use clarigggz::api::{run_script, script_response, ScriptRequest, SCRIPT_SUCCESS_MESSAGE};
use clarigggz::hardware::SharedHardware;
use clarigggz::kernel::SharedKernel;
use clarigggz::scripting::{ScriptEngine, ScriptError};
use std::sync::Arc;

#[test]
fn success_message_is_the_documented_text() {
    assert_eq!(SCRIPT_SUCCESS_MESSAGE, "Script executed successfully");
}

#[test]
fn successful_run_is_answered_with_the_fixed_text() {
    let response = script_response(Ok(()));
    assert!(response.success);
    assert_eq!(response.data, "Script executed successfully");
}

#[test]
fn failed_run_is_answered_with_the_description() {
    for error in [
        ScriptError::Syntax("bad token".to_string()),
        ScriptError::Runtime("no such function".to_string()),
        ScriptError::Timeout("too many operations".to_string()),
    ] {
        let text = error.message();
        let response = script_response(Err(error));
        assert!(!response.success);
        assert_eq!(response.data, text);
    }
}

#[test]
fn run_script_runs_and_answers() {
    let hardware = Arc::new(SharedHardware::new());
    let kernel = Arc::new(SharedKernel::new());
    let engine = ScriptEngine::new(hardware.clone(), kernel.clone());

    let ok = run_script(&engine, &ScriptRequest { script: "kernel_start();".to_string() });
    assert!(ok.success);
    assert_eq!(ok.data, "Script executed successfully");
    assert!(kernel.get_state().is_running);

    let failed = run_script(&engine, &ScriptRequest { script: "kernel_stop(); nope();".to_string() });
    assert!(!failed.success);
    assert!(failed.data.contains("nope"));
    assert!(!kernel.get_state().is_running);
}
