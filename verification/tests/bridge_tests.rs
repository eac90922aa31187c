use desktop_bridge::dispatch::{act_outcome, placement, Placement};
use desktop_bridge::handlers::{
    act_reply, action_result_text, capture_reply, handle_autopilot_act, handle_autopilot_capture,
    handle_autopilot_permissions, handle_computer_execute, handle_computer_preview,
    handle_shell_execute, handle_shell_preview, shell_reply, ActOutcome, AutopilotActRequest,
    AutopilotCaptureRequest, Batch, CaptureResult, ComputerAction, ComputerRequest, ShellRequest,
    Step, DEFAULT_MAX_WIDTH, DEFAULT_QUALITY,
};
use desktop_bridge::permissions::{check_permissions, report_permissions};
use desktop_bridge::reply::{
    bad_request, internal_error, not_found, preflight, unavailable, with_cors, Body, Header,
    Reply,
};
use desktop_bridge::router::{route, Route};

fn action(kind: &str) -> ComputerAction {
    ComputerAction {
        action: kind.to_string(),
        coordinate: Some([10, 20]),
        start_coordinate: None,
        text: None,
        scroll_direction: None,
        scroll_amount: None,
        key: None,
        region: None,
    }
}

fn batch_of(n: usize) -> ComputerRequest {
    ComputerRequest { actions: (0..n).map(|i| action(&format!("a{}", i))).collect() }
}

fn text_of(reply: &Reply) -> String {
    match &reply.body {
        Body::Text(t) => t.clone(),
        _ => panic!("the reply carries no text"),
    }
}

fn header_pairs(reply: &Reply) -> Vec<(String, String)> {
    reply.headers.iter().map(|h| (h.name.clone(), h.value.clone())).collect()
}

fn cors() -> Vec<(String, String)> {
    vec![
        ("Access-Control-Allow-Origin".to_string(), "*".to_string()),
        ("Access-Control-Allow-Methods".to_string(), "GET, POST, OPTIONS".to_string()),
        ("Access-Control-Allow-Headers".to_string(), "Content-Type, Authorization".to_string()),
    ]
}

fn is_bad_request(reply: &Reply) -> bool {
    reply.status == 400 && text_of(reply) == "некорректный запрос" && header_pairs(reply) == cors()
}

fn is_unavailable(reply: &Reply) -> bool {
    reply.status == 503 && text_of(reply) == "НЕДОСТУПНО" && header_pairs(reply) == cors()
}

#[test]
fn options_is_preflight_for_every_path() {
    for path in ["/", "", "/computer/execute", "/nowhere?x=1", "*"] {
        assert_eq!(route("OPTIONS", path), Route::Preflight);
    }
}

#[test]
fn each_endpoint_has_its_route() {
    assert_eq!(route("POST", "/computer/preview"), Route::ComputerPreview);
    assert_eq!(route("POST", "/computer/execute"), Route::ComputerExecute);
    assert_eq!(route("POST", "/shell/preview"), Route::ShellPreview);
    assert_eq!(route("POST", "/shell/execute"), Route::ShellExecute);
    assert_eq!(route("POST", "/autopilot/capture"), Route::AutopilotCapture);
    assert_eq!(route("POST", "/autopilot/act"), Route::AutopilotAct);
    assert_eq!(route("GET", "/autopilot/permissions"), Route::AutopilotPermissions);
}

#[test]
fn routing_is_exact() {
    assert_eq!(route("GET", "/computer/preview"), Route::NotFound);
    assert_eq!(route("POST", "/autopilot/permissions"), Route::NotFound);
    assert_eq!(route("POST", "/computer/preview/"), Route::NotFound);
    assert_eq!(route("POST", "/computer/preview?x=1"), Route::NotFound);
    assert_eq!(route("POST", "/computer"), Route::NotFound);
    assert_eq!(route("post", "/computer/preview"), Route::NotFound);
    assert_eq!(route("options", "/"), Route::NotFound);
    assert_eq!(route("PUT", "/shell/execute"), Route::NotFound);
    assert_eq!(route("", ""), Route::NotFound);
}

#[test]
fn fixed_replies_have_their_status_and_text() {
    assert!(is_bad_request(&bad_request()));
    assert!(is_unavailable(&unavailable()));
    let r = not_found();
    assert_eq!(r.status, 404);
    assert_eq!(text_of(&r), "не найдено");
}

#[test]
fn preflight_is_empty_success_with_cors() {
    let p = preflight();
    assert_eq!(p.status, 200);
    assert_eq!(text_of(&p), "");
    assert_eq!(header_pairs(&p), cors());
}

#[test]
fn with_cors_appends_the_three_headers() {
    let bare = Reply { status: 204, headers: Vec::new(), body: Body::Text("x".to_string()) };
    let r = with_cors(bare);
    assert_eq!(r.status, 204);
    assert_eq!(text_of(&r), "x");
    assert_eq!(header_pairs(&r), cors());
}

#[test]
fn with_cors_keeps_the_headers_before_it() {
    let first = Header { name: "X-Test".to_string(), value: "1".to_string() };
    let r = with_cors(Reply { status: 200, headers: vec![first], body: Body::Text(String::new()) });
    let mut expected = vec![("X-Test".to_string(), "1".to_string())];
    expected.extend(cors());
    assert_eq!(header_pairs(&r), expected);
}

#[test]
fn every_reply_carries_cors() {
    assert_eq!(header_pairs(&not_found()), cors());
    assert_eq!(header_pairs(&handle_computer_preview(Some(batch_of(1)))), cors());
    assert_eq!(header_pairs(&shell_reply(Ok(String::new()))), cors());
    assert_eq!(header_pairs(&capture_reply(Err("e".to_string()))), cors());
    assert_eq!(header_pairs(&act_reply(ActOutcome::Panicked)), cors());
    assert_eq!(header_pairs(&handle_autopilot_permissions(Some((false, false)))), cors());
    assert_eq!(header_pairs(&Batch::new(Vec::new()).finish()), cors());
}

#[test]
fn preview_counts_the_actions() {
    let r = handle_computer_preview(Some(batch_of(3)));
    assert_eq!(r.status, 200);
    match r.body {
        Body::Computer(c) => {
            assert_eq!(c.summary, "3 действий");
            assert!(c.results.is_empty());
        }
        _ => panic!("not a batch reply"),
    }
}

#[test]
fn preview_of_an_empty_batch() {
    let r = handle_computer_preview(Some(batch_of(0)));
    match r.body {
        Body::Computer(c) => assert_eq!(c.summary, "0 действий"),
        _ => panic!("not a batch reply"),
    }
}

#[test]
fn undecoded_bodies_are_bad_requests_on_every_endpoint() {
    assert!(is_bad_request(&handle_computer_preview(None)));
    assert!(is_bad_request(&handle_shell_preview(None)));
    for skills in [true, false] {
        match handle_computer_execute(None, skills) {
            Step::Respond(r) => assert!(is_bad_request(&r)),
            Step::Run(_) => panic!("work was admitted"),
        }
        match handle_shell_execute(None, skills) {
            Step::Respond(r) => assert!(is_bad_request(&r)),
            Step::Run(_) => panic!("work was admitted"),
        }
        match handle_autopilot_capture(None, skills) {
            Step::Respond(r) => assert!(is_bad_request(&r)),
            Step::Run(_) => panic!("work was admitted"),
        }
        match handle_autopilot_act::<String>(None, skills) {
            Step::Respond(r) => assert!(is_bad_request(&r)),
            Step::Run(_) => panic!("work was admitted"),
        }
    }
}

#[test]
fn hosts_without_automation_are_unavailable() {
    match handle_computer_execute(Some(batch_of(2)), false) {
        Step::Respond(r) => assert!(is_unavailable(&r)),
        Step::Run(_) => panic!("work was admitted"),
    }
    match handle_shell_execute(Some(ShellRequest { command: "ls".to_string() }), false) {
        Step::Respond(r) => assert!(is_unavailable(&r)),
        Step::Run(_) => panic!("work was admitted"),
    }
    let capture = AutopilotCaptureRequest { max_width: None, quality: None };
    match handle_autopilot_capture(Some(capture), false) {
        Step::Respond(r) => assert!(is_unavailable(&r)),
        Step::Run(_) => panic!("work was admitted"),
    }
    let act = AutopilotActRequest { action: 1u8, image_width: 1, image_height: 1 };
    match handle_autopilot_act(Some(act), false) {
        Step::Respond(r) => assert!(is_unavailable(&r)),
        Step::Run(_) => panic!("work was admitted"),
    }
    assert!(is_unavailable(&handle_autopilot_permissions(None)));
}

#[test]
fn batch_of_three_gives_three_results_in_order() {
    let mut batch = match handle_computer_execute(Some(batch_of(3)), true) {
        Step::Run(b) => b,
        Step::Respond(_) => panic!("the batch was not admitted"),
    };
    assert_eq!(batch.len(), 3);
    let outcomes = vec![Ok(Some("moved".to_string())), Err("boom".to_string()), Ok(None)];
    let mut seen = Vec::new();
    for outcome in outcomes {
        let pending = batch.pending().expect("an action is pending");
        seen.push(pending.action.clone());
        batch = batch.record(outcome);
    }
    assert!(batch.pending().is_none());
    assert_eq!(batch.recorded_len(), 3);
    assert_eq!(seen, vec!["a0", "a1", "a2"]);
    let r = batch.finish();
    assert_eq!(r.status, 200);
    match r.body {
        Body::Computer(c) => {
            assert!(c.summary.contains("3"));
            assert_eq!(c.summary, "3 действий");
            assert_eq!(c.results, vec!["moved", "ошибка: boom", ""]);
        }
        _ => panic!("not a batch reply"),
    }
}

#[test]
fn results_match_the_batch_length() {
    for n in [0usize, 1, 2, 9, 10, 11, 120] {
        let mut batch = Batch::new(batch_of(n).actions);
        while batch.pending().is_some() {
            batch = batch.record(Ok(None));
        }
        match batch.finish().body {
            Body::Computer(c) => {
                assert_eq!(c.results.len(), n);
                assert_eq!(c.summary, format!("{} действий", n));
            }
            _ => panic!("not a batch reply"),
        }
    }
}

#[test]
fn abandoned_batch_is_unavailable() {
    let batch = Batch::new(batch_of(2).actions);
    assert!(is_unavailable(&batch.abandon()));
}

#[test]
fn action_results_have_their_text() {
    assert_eq!(action_result_text(Ok(Some("done".to_string()))), "done");
    assert_eq!(action_result_text(Ok(None)), "");
    assert_eq!(action_result_text(Err("no display".to_string())), "ошибка: no display");
    assert_eq!(action_result_text(Err(String::new())), "ошибка: ");
}

#[test]
fn shell_preview_echoes_the_command() {
    let r = handle_shell_preview(Some(ShellRequest { command: "echo hi".to_string() }));
    assert_eq!(r.status, 200);
    match r.body {
        Body::Shell(s) => assert_eq!(s.output, "echo hi"),
        _ => panic!("not a shell reply"),
    }
}

#[test]
fn shell_execute_admits_the_command() {
    match handle_shell_execute(Some(ShellRequest { command: "ls -l".to_string() }), true) {
        Step::Run(req) => assert_eq!(req.command, "ls -l"),
        Step::Respond(_) => panic!("the command was not admitted"),
    }
}

#[test]
fn shell_reply_carries_output_or_the_error() {
    let r = shell_reply(Ok("out\n".to_string()));
    assert_eq!(r.status, 200);
    match r.body {
        Body::Shell(s) => assert_eq!(s.output, "out\n"),
        _ => panic!("not a shell reply"),
    }
    let failed = shell_reply(Err("failed".to_string()));
    assert_eq!(failed.status, 500);
    assert_eq!(text_of(&failed), "failed");
    assert_eq!(header_pairs(&failed), cors());
}

#[test]
fn shell_without_automation_is_unavailable_not_an_error() {
    match handle_shell_execute(Some(ShellRequest { command: "ls".to_string() }), false) {
        Step::Respond(r) => assert_eq!(r.status, 503),
        Step::Run(_) => panic!("work was admitted"),
    }
}

#[test]
fn capture_defaults_are_1280_and_60() {
    assert_eq!(DEFAULT_MAX_WIDTH, 1280);
    assert_eq!(DEFAULT_QUALITY, 60);
    let req = AutopilotCaptureRequest { max_width: None, quality: None };
    match handle_autopilot_capture(Some(req), true) {
        Step::Run(order) => {
            assert_eq!(order.max_width, 1280);
            assert_eq!(order.quality, 60);
        }
        Step::Respond(_) => panic!("the capture was not admitted"),
    }
}

#[test]
fn capture_keeps_the_requested_width_and_quality() {
    let req = AutopilotCaptureRequest { max_width: Some(640), quality: Some(80) };
    match handle_autopilot_capture(Some(req), true) {
        Step::Run(order) => {
            assert_eq!(order.max_width, 640);
            assert_eq!(order.quality, 80);
        }
        Step::Respond(_) => panic!("the capture was not admitted"),
    }
    let req = AutopilotCaptureRequest { max_width: Some(0), quality: None };
    match handle_autopilot_capture(Some(req), true) {
        Step::Run(order) => {
            assert_eq!(order.max_width, 0);
            assert_eq!(order.quality, 60);
        }
        Step::Respond(_) => panic!("the capture was not admitted"),
    }
}

#[test]
fn capture_reply_reports_image_and_screen_sizes() {
    let capture = CaptureResult {
        image_base64: "aGk=".to_string(),
        width: 640,
        height: 360,
        screen_width: 1920,
        screen_height: 1080,
    };
    let r = capture_reply(Ok(capture));
    assert_eq!(r.status, 200);
    match r.body {
        Body::Capture(c) => {
            assert_eq!(c.image_base64, "aGk=");
            assert_eq!((c.width, c.height), (640, 360));
            assert_eq!((c.screen_width, c.screen_height), (1920, 1080));
            assert_eq!(c.format, "jpeg");
        }
        _ => panic!("not a capture reply"),
    }
}

#[test]
fn capture_error_is_a_server_error() {
    let r = capture_reply(Err("no monitor".to_string()));
    assert_eq!(r.status, 500);
    assert_eq!(text_of(&r), "no monitor");
}

#[test]
fn act_admits_the_request_unchanged() {
    let req = AutopilotActRequest { action: "click".to_string(), image_width: 640, image_height: 360 };
    match handle_autopilot_act(Some(req), true) {
        Step::Run(req) => {
            assert_eq!(req.action, "click");
            assert_eq!((req.image_width, req.image_height), (640, 360));
        }
        Step::Respond(_) => panic!("the action was not admitted"),
    }
}

#[test]
fn act_reply_for_each_outcome() {
    let ok = act_reply(ActOutcome::Done("clicked".to_string()));
    assert_eq!(ok.status, 200);
    match ok.body {
        Body::Act(a) => {
            assert_eq!(a.status, "ok");
            assert_eq!(a.summary, "clicked");
        }
        _ => panic!("not an act reply"),
    }
    let failed = act_reply(ActOutcome::Failed("out of bounds".to_string()));
    assert_eq!(failed.status, 500);
    assert_eq!(text_of(&failed), "out of bounds");
    let panicked = act_reply(ActOutcome::Panicked);
    assert_eq!(panicked.status, 500);
    assert_eq!(text_of(&panicked), "внутренняя ошибка autopilot");
    assert!(is_unavailable(&act_reply(ActOutcome::Unavailable)));
}

#[test]
fn act_reply_keeps_any_summary_as_it_is() {
    for summary in ["\"", "a\\b", "line\nbreak", "", "{\"x\":1}"] {
        let r = act_reply(ActOutcome::Done(summary.to_string()));
        assert_eq!(r.status, 200);
        match r.body {
            Body::Act(a) => {
                assert_eq!(a.status, "ok");
                assert_eq!(a.summary, summary);
                let encoded = format!(
                    "{{\"status\":{},\"summary\":{}}}",
                    serde_json::to_string(&a.status).unwrap(),
                    serde_json::to_string(&a.summary).unwrap()
                );
                let parsed: serde_json::Value = serde_json::from_str(&encoded).unwrap();
                assert_eq!(parsed["status"].as_str(), Some("ok"));
                assert_eq!(parsed["summary"].as_str(), Some(summary));
            }
            _ => panic!("not an act reply"),
        }
    }
}

#[test]
fn internal_error_is_a_fixed_server_error() {
    let r = internal_error();
    assert_eq!(r.status, 500);
    assert_eq!(text_of(&r), "внутренняя ошибка autopilot");
    assert_eq!(header_pairs(&r), cors());
}

#[test]
fn dispatched_results_become_outcomes() {
    assert!(matches!(act_outcome(Some(Some(Ok("s".to_string())))), ActOutcome::Done(s) if s == "s"));
    assert!(
        matches!(act_outcome(Some(Some(Err("e".to_string())))), ActOutcome::Failed(e) if e == "e")
    );
    assert!(matches!(act_outcome(Some(None)), ActOutcome::Unavailable));
    assert!(matches!(act_outcome(None), ActOutcome::Panicked));
}

#[test]
fn permissions_report_needs_automation() {
    match report_permissions(Some((true, true))) {
        Ok(p) => {
            assert_eq!(p.screen_recording, "granted");
            assert_eq!(p.input_control, "available");
        }
        Err(_) => panic!("the status was refused"),
    }
    match report_permissions(None) {
        Ok(_) => panic!("a status was made up"),
        Err(e) => assert_eq!(e, "Недоступно без desktop-skills"),
    }
}

#[test]
fn work_is_queued_only_off_the_main_thread() {
    assert_eq!(placement(true, false), Placement::MainQueue);
    assert_eq!(placement(true, true), Placement::Inline);
    assert_eq!(placement(false, false), Placement::Inline);
    assert_eq!(placement(false, true), Placement::Inline);
}

#[test]
fn permissions_for_each_pair_of_probes() {
    let both = check_permissions(true, true);
    assert_eq!(both.screen_recording, "granted");
    assert_eq!(both.accessibility, "granted");
    assert_eq!(both.input_control, "available");
    assert_eq!(both.message, "Разрешения в норме");
    let screen_only = check_permissions(true, false);
    assert_eq!(screen_only.screen_recording, "granted");
    assert_eq!(screen_only.accessibility, "denied");
    assert_eq!(screen_only.input_control, "blocked");
    assert_eq!(screen_only.message, "Нужны разрешения: Запись экрана и Универсальный доступ");
    let input_only = check_permissions(false, true);
    assert_eq!(input_only.screen_recording, "denied");
    assert_eq!(input_only.accessibility, "granted");
    assert_eq!(input_only.input_control, "available");
    assert_eq!(input_only.message, "Нужны разрешения: Запись экрана и Универсальный доступ");
    let none = check_permissions(false, false);
    assert_eq!(none.screen_recording, "denied");
    assert_eq!(none.accessibility, "denied");
    assert_eq!(none.input_control, "blocked");
    assert_eq!(none.message, "Нужны разрешения: Запись экрана и Универсальный доступ");
}

#[test]
fn permissions_twice_give_the_same_status() {
    for (s, x) in [(true, true), (true, false), (false, true), (false, false)] {
        let a = check_permissions(s, x);
        let b = check_permissions(s, x);
        assert_eq!(a.screen_recording, b.screen_recording);
        assert_eq!(a.accessibility, b.accessibility);
        assert_eq!(a.input_control, b.input_control);
        assert_eq!(a.message, b.message);
    }
}

#[test]
fn permissions_reply_carries_the_status() {
    let r = handle_autopilot_permissions(Some((true, false)));
    assert_eq!(r.status, 200);
    match r.body {
        Body::Permissions(p) => {
            assert_eq!(p.screen_recording, "granted");
            assert_eq!(p.input_control, "blocked");
        }
        _ => panic!("not a permissions reply"),
    }
}
