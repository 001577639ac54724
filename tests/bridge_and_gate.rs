use desktop_shell::render_gate::{NodeGraphOutcome, RenderGate, ResultPlan};
use desktop_shell::script_bridge::{accept_process_message, is_response_message, script_call, ScriptCall};
use desktop_shell::web_bridge::WebMessageQueue;

#[test]
fn messages_before_ready_are_held_in_order() {
    let mut q = WebMessageQueue::new();
    assert_eq!(q.send_or_queue(vec![1]), None);
    assert_eq!(q.send_or_queue(vec![2, 2]), None);
    assert_eq!(q.send_or_queue(vec![3]), None);
    let flushed = q.mark_initialized();
    assert_eq!(flushed, vec![vec![1], vec![2, 2], vec![3]]);
    assert_eq!(q.send_or_queue(vec![4]), Some(vec![4]));
    assert_eq!(q.send_or_queue(vec![5]), Some(vec![5]));
}

#[test]
fn second_ready_delivers_nothing_again() {
    let mut q = WebMessageQueue::new();
    q.send_or_queue(vec![9]);
    assert_eq!(q.mark_initialized(), vec![vec![9]]);
    assert!(q.mark_initialized().is_empty());
    assert!(q.startup_buffer.is_empty());
}

#[test]
fn ready_with_nothing_held() {
    let mut q = WebMessageQueue::new();
    assert!(q.mark_initialized().is_empty());
    assert!(q.initialized);
    assert_eq!(q.send_or_queue(vec![]), Some(vec![]));
}

#[test]
fn delivery_order_over_a_run() {
    let mut q = WebMessageQueue::new();
    let mut delivered: Vec<Vec<u8>> = Vec::new();
    for i in 0..4u8 {
        if let Some(m) = q.send_or_queue(vec![i]) {
            delivered.push(m);
        }
    }
    delivered.extend(q.mark_initialized());
    for i in 4..7u8 {
        if let Some(m) = q.send_or_queue(vec![i]) {
            delivered.push(m);
        }
    }
    delivered.extend(q.mark_initialized());
    let expected: Vec<Vec<u8>> = (0..7u8).map(|i| vec![i]).collect();
    assert_eq!(delivered, expected);
}

#[test]
fn result_with_texture_binds_and_owes_go_ahead() {
    let mut g = RenderGate::new();
    assert!(!g.go_ahead_owed);
    let plan = g.on_result(NodeGraphOutcome::HasRun { has_texture: true }, true);
    assert_eq!(plan, ResultPlan { poll_evaluation: true, bind_texture: true });
    assert!(g.go_ahead_owed);
    assert!(g.on_redraw());
    assert!(!g.on_redraw());
}

#[test]
fn result_without_texture_only_polls() {
    let mut g = RenderGate::new();
    let plan = g.on_result(NodeGraphOutcome::HasRun { has_texture: false }, true);
    assert_eq!(plan, ResultPlan { poll_evaluation: true, bind_texture: false });
}

#[test]
fn not_run_asks_for_nothing_but_still_owes_go_ahead() {
    let mut g = RenderGate::new();
    let plan = g.on_result(NodeGraphOutcome::NotRun, true);
    assert_eq!(plan, ResultPlan { poll_evaluation: false, bind_texture: false });
    assert!(g.on_redraw());
}

#[test]
fn texture_without_display_is_not_bound() {
    let mut g = RenderGate::new();
    let plan = g.on_result(NodeGraphOutcome::HasRun { has_texture: true }, false);
    assert_eq!(plan, ResultPlan { poll_evaluation: true, bind_texture: false });
}

#[test]
fn redraws_without_result_send_no_go_ahead() {
    let mut g = RenderGate::new();
    assert!(!g.on_redraw());
    assert!(!g.on_redraw());
    g.on_result(NodeGraphOutcome::NotRun, false);
    assert!(g.on_redraw());
    assert!(!g.on_redraw());
}

#[test]
fn script_function_names() {
    assert_eq!(script_call("sendMessageToCef"), ScriptCall::SendMessage);
    assert_eq!(script_call("readMessageData"), ScriptCall::ReadMessage);
    assert_eq!(script_call("readMessage"), ScriptCall::Unknown);
    assert_eq!(script_call(""), ScriptCall::Unknown);
}

#[test]
fn only_response_messages_reach_the_script_side() {
    assert!(is_response_message("editorResponseToJs"));
    assert!(!is_response_message("editorResponseToJS"));
    assert_eq!(accept_process_message("editorResponseToJs", Some(vec![1, 2, 3])), Some(vec![1, 2, 3]));
    assert_eq!(accept_process_message("other", Some(vec![1, 2, 3])), None);
    assert_eq!(accept_process_message("editorResponseToJs", None), None);
}
