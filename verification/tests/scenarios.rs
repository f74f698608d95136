//! Whole runs against a scripted browser session.

use webcommands::{
    Action, CommandType, ElementHandle, ErrorKind, Interpreter, Reply, RunError, Seconds,
    SessionError, WebCommand,
};

fn command(selector: Option<&str>, command_type: CommandType) -> WebCommand {
    WebCommand { selector: selector.map(String::from), command_type }
}

fn element(id: u64) -> ElementHandle {
    ElementHandle { id }
}

fn found(id: u64) -> Reply {
    Reply::Element(element(id))
}

fn failed(kind: ErrorKind, message: &str) -> Reply {
    Reply::Failed(SessionError { kind, message: message.to_string() })
}

fn session_error(kind: ErrorKind, message: &str) -> RunError {
    RunError::Session(SessionError { kind, message: message.to_string() })
}

fn find(selector: &str, within: Option<u64>) -> Action {
    Action::Find { selector: selector.to_string(), within: within.map(element) }
}

fn click(id: u64) -> Action {
    Action::Click { element: element(id) }
}

fn log(text: &str) -> Action {
    Action::Log { text: text.to_string() }
}

fn retry_log(message: &str) -> Action {
    log(&format!("Failed to finish a loop: {}; will retry...", message))
}

/// Feeds the replies to a run of the script, one per action, and returns every
/// action that the run asked for. The run must end exactly when the replies
/// are used up.
fn play(script: &[WebCommand], replies: Vec<Reply>) -> Vec<Action> {
    let (mut run, mut action) = Interpreter::start(script);
    let mut actions = Vec::new();
    let mut replies = replies.into_iter();
    loop {
        let ended = matches!(action, Action::Finish { .. });
        actions.push(action);
        if ended {
            assert!(replies.next().is_none(), "the run ended before the replies did");
            assert!(run.result().is_some());
            return actions;
        }
        assert!(run.result().is_none());
        let reply = match replies.next() {
            Some(reply) => reply,
            None => panic!("the run asks for more after {:?}", actions),
        };
        let (next, asked) = run.resume(reply);
        run = next;
        action = asked;
    }
}

fn finish(result: Result<(), RunError>) -> Action {
    Action::Finish { result }
}

#[test]
fn empty_script_ends_at_once() {
    assert_eq!(play(&[], vec![]), vec![finish(Ok(()))]);
}

#[test]
fn descend_scopes_the_lookup_of_the_inner_command() {
    let script = vec![
        command(None, CommandType::GoTo("https://x".to_string())),
        command(
            Some("div"),
            CommandType::Recursive(Box::new(command(Some("a"), CommandType::Click))),
        ),
    ];
    let actions = play(&script, vec![Reply::Done, found(1), found(2), Reply::Done]);
    assert_eq!(
        actions,
        vec![
            Action::Navigate { url: "https://x".to_string() },
            find("div", None),
            find("a", Some(1)),
            click(2),
            finish(Ok(())),
        ]
    );
}

#[test]
fn descend_of_depth_two_narrows_twice() {
    let script = vec![command(
        Some("form"),
        CommandType::Recursive(Box::new(command(
            Some("div"),
            CommandType::Recursive(Box::new(command(
                Some("input"),
                CommandType::Input("input text".to_string()),
            ))),
        ))),
    )];
    let actions = play(&script, vec![found(10), found(11), found(12), Reply::Done]);
    assert_eq!(
        actions,
        vec![
            find("form", None),
            find("div", Some(10)),
            find("input", Some(11)),
            Action::SendKeys { element: element(12), text: "input text".to_string() },
            finish(Ok(())),
        ]
    );
}

#[test]
fn context_is_used_by_the_next_command_only() {
    let script = vec![
        command(
            Some("div"),
            CommandType::Recursive(Box::new(command(Some("a"), CommandType::Click))),
        ),
        command(Some("b"), CommandType::Click),
    ];
    let actions = play(&script, vec![found(1), found(2), Reply::Done, found(3), Reply::Done]);
    assert_eq!(
        actions,
        vec![
            find("div", None),
            find("a", Some(1)),
            click(2),
            find("b", None),
            click(3),
            finish(Ok(())),
        ]
    );
}

#[test]
fn command_without_element_hands_the_context_on() {
    let script = vec![
        command(
            Some("div"),
            CommandType::Recursive(Box::new(command(
                None,
                CommandType::GoTo("https://x".to_string()),
            ))),
        ),
        command(Some("a"), CommandType::Check),
        command(Some("b"), CommandType::Check),
    ];
    let actions = play(&script, vec![found(1), Reply::Done, found(2), found(3)]);
    assert_eq!(
        actions,
        vec![
            find("div", None),
            Action::Navigate { url: "https://x".to_string() },
            find("a", Some(1)),
            find("b", None),
            finish(Ok(())),
        ]
    );
}

#[test]
fn first_failure_ends_a_flat_run() {
    let script = vec![
        command(None, CommandType::GoTo("https://x".to_string())),
        command(Some("a"), CommandType::Click),
        command(Some("b"), CommandType::Click),
        command(None, CommandType::PrintSource),
    ];
    let actions = play(
        &script,
        vec![Reply::Done, failed(ErrorKind::NotFound, "no such element")],
    );
    assert_eq!(
        actions,
        vec![
            Action::Navigate { url: "https://x".to_string() },
            find("a", None),
            finish(Err(session_error(ErrorKind::NotFound, "no such element"))),
        ]
    );
}

#[test]
fn ended_run_stays_ended() {
    let script = vec![command(Some("a"), CommandType::Click)];
    let (run, _) = Interpreter::start(&script);
    let (run, action) = run.resume(failed(ErrorKind::Other, "boom"));
    let failure = session_error(ErrorKind::Other, "boom");
    assert_eq!(action, finish(Err(failure.clone())));
    assert_eq!(run.result(), Some(Err(failure.clone())));
    let (run, action) = run.resume(Reply::Done);
    assert_eq!(action, finish(Err(failure.clone())));
    let (run, action) = run.resume(found(1));
    assert_eq!(action, finish(Err(failure.clone())));
    assert_eq!(run.result(), Some(Err(failure)));
}

#[test]
fn loop_runs_its_body_three_times_when_it_fails_twice() {
    let script = vec![
        command(
            None,
            CommandType::Loop(vec![
                command(Some("a"), CommandType::Click),
                command(Some("b"), CommandType::Check),
            ]),
        ),
        command(None, CommandType::LeaveFrame),
    ];
    let actions = play(
        &script,
        vec![
            // first pass: the click goes through, the check fails
            found(1),
            Reply::Done,
            failed(ErrorKind::NotFound, "no b"),
            Reply::Done,
            // second pass: the lookup for the click fails
            failed(ErrorKind::StaleElement, "stale"),
            Reply::Done,
            // third pass: both succeed
            found(2),
            Reply::Done,
            found(3),
            // after the loop
            Reply::Done,
        ],
    );
    assert_eq!(
        actions,
        vec![
            find("a", None),
            click(1),
            find("b", None),
            retry_log("no b"),
            find("a", None),
            retry_log("stale"),
            find("a", None),
            click(2),
            find("b", None),
            Action::EnterParentFrame,
            finish(Ok(())),
        ]
    );
    let passes = actions.iter().filter(|action| **action == find("a", None)).count();
    assert_eq!(passes, 3);
}

#[test]
fn fatal_failure_in_a_loop_ends_the_run_without_retry() {
    for kind in [ErrorKind::SessionInvalid, ErrorKind::WindowClosed] {
        let script = vec![
            command(None, CommandType::Loop(vec![command(Some("a"), CommandType::Click)])),
            command(None, CommandType::PrintSource),
        ];
        let actions = play(&script, vec![found(1), failed(kind, "gone")]);
        assert_eq!(
            actions,
            vec![find("a", None), click(1), finish(Err(session_error(kind, "gone")))]
        );
    }
}

#[test]
fn fatal_failure_passes_through_nested_loops() {
    let script = vec![command(
        None,
        CommandType::Loop(vec![command(
            None,
            CommandType::Loop(vec![command(Some("a"), CommandType::Check)]),
        )]),
    )];
    let actions = play(&script, vec![failed(ErrorKind::SessionInvalid, "invalid session id")]);
    assert_eq!(
        actions,
        vec![
            find("a", None),
            finish(Err(session_error(ErrorKind::SessionInvalid, "invalid session id"))),
        ]
    );
}

#[test]
fn inner_loop_retries_alone() {
    let script = vec![command(
        None,
        CommandType::Loop(vec![
            command(Some("a"), CommandType::Check),
            command(None, CommandType::Loop(vec![command(Some("b"), CommandType::Check)])),
            command(Some("c"), CommandType::Check),
        ]),
    )];
    let actions = play(
        &script,
        vec![
            found(1),
            failed(ErrorKind::NotFound, "no b"),
            Reply::Done,
            found(2),
            failed(ErrorKind::NotFound, "no c"),
            Reply::Done,
            found(3),
            found(4),
            found(5),
        ],
    );
    assert_eq!(
        actions,
        vec![
            find("a", None),
            find("b", None),
            retry_log("no b"),
            find("b", None),
            find("c", None),
            retry_log("no c"),
            find("a", None),
            find("b", None),
            find("c", None),
            finish(Ok(())),
        ]
    );
}

#[test]
fn loop_starts_with_no_context_and_leaves_the_outer_one() {
    let script = vec![
        command(
            Some("div"),
            CommandType::Recursive(Box::new(command(
                None,
                CommandType::Loop(vec![command(Some("a"), CommandType::Check)]),
            ))),
        ),
        command(Some("b"), CommandType::Check),
    ];
    let actions = play(&script, vec![found(1), found(2), found(3)]);
    assert_eq!(
        actions,
        vec![find("div", None), find("a", None), find("b", Some(1)), finish(Ok(()))]
    );
}

#[test]
fn empty_loop_is_done_at_once() {
    let script = vec![
        command(None, CommandType::Loop(vec![])),
        command(None, CommandType::Loop(vec![command(None, CommandType::Loop(vec![]))])),
        command(None, CommandType::LeaveFrame),
    ];
    let actions = play(&script, vec![Reply::Done]);
    assert_eq!(actions, vec![Action::EnterParentFrame, finish(Ok(()))]);
}

#[test]
fn wait_timeout_is_retried_inside_a_loop() {
    let script = vec![command(
        None,
        CommandType::Loop(vec![command(Some("p.test"), CommandType::Wait)]),
    )];
    let actions = play(
        &script,
        vec![failed(ErrorKind::Timeout, "timed out"), Reply::Done, found(1)],
    );
    assert_eq!(
        actions,
        vec![
            Action::WaitFor { selector: "p.test".to_string() },
            retry_log("timed out"),
            Action::WaitFor { selector: "p.test".to_string() },
            finish(Ok(())),
        ]
    );
}

#[test]
fn wait_timeout_ends_a_run_outside_loops() {
    let script = vec![
        command(Some("p.test"), CommandType::Wait),
        command(Some("a"), CommandType::Click),
    ];
    let actions = play(&script, vec![failed(ErrorKind::Timeout, "timed out")]);
    assert_eq!(
        actions,
        vec![
            Action::WaitFor { selector: "p.test".to_string() },
            finish(Err(session_error(ErrorKind::Timeout, "timed out"))),
        ]
    );
}

#[test]
fn wait_hands_the_context_on() {
    let script = vec![command(
        Some("div"),
        CommandType::Recursive(Box::new(command(
            Some("p"),
            CommandType::Recursive(Box::new(command(Some("a"), CommandType::Click))),
        ))),
    )];
    let actions = play(&script, vec![found(1), found(2), found(3), Reply::Done]);
    assert_eq!(
        actions,
        vec![
            find("div", None),
            find("p", Some(1)),
            find("a", Some(2)),
            click(3),
            finish(Ok(())),
        ]
    );
}

#[test]
fn click_until_navigation_clicks_again_while_the_url_stays() {
    let script = vec![
        command(Some("a#link"), CommandType::ClickUntilNavigation),
        command(None, CommandType::LeaveFrame),
    ];
    let actions = play(
        &script,
        vec![
            found(1),
            Reply::Text("https://x/one".to_string()),
            Reply::Done,
            Reply::Text("https://x/one".to_string()),
            found(2),
            Reply::Done,
            Reply::Text("https://x/one".to_string()),
            found(3),
            Reply::Done,
            Reply::Text("https://x/two".to_string()),
            Reply::Done,
        ],
    );
    assert_eq!(
        actions,
        vec![
            find("a#link", None),
            Action::CurrentUrl,
            click(1),
            Action::CurrentUrl,
            find("a#link", None),
            click(2),
            Action::CurrentUrl,
            find("a#link", None),
            click(3),
            Action::CurrentUrl,
            Action::EnterParentFrame,
            finish(Ok(())),
        ]
    );
}

#[test]
fn click_until_navigation_stops_at_the_first_change() {
    let script = vec![command(Some("a"), CommandType::ClickUntilNavigation)];
    let actions = play(
        &script,
        vec![
            found(1),
            Reply::Text("https://x/one".to_string()),
            Reply::Done,
            Reply::Text("https://x/two".to_string()),
        ],
    );
    assert_eq!(
        actions,
        vec![find("a", None), Action::CurrentUrl, click(1), Action::CurrentUrl, finish(Ok(()))]
    );
}

#[test]
fn click_until_navigation_looks_again_in_the_whole_document() {
    let script = vec![command(
        Some("div"),
        CommandType::Recursive(Box::new(command(Some("a"), CommandType::ClickUntilNavigation))),
    )];
    let actions = play(
        &script,
        vec![
            found(1),
            found(2),
            Reply::Text("u".to_string()),
            Reply::Done,
            Reply::Text("u".to_string()),
            found(3),
            Reply::Done,
            Reply::Text("v".to_string()),
        ],
    );
    assert_eq!(
        actions,
        vec![
            find("div", None),
            find("a", Some(1)),
            Action::CurrentUrl,
            click(2),
            Action::CurrentUrl,
            find("a", None),
            click(3),
            Action::CurrentUrl,
            finish(Ok(())),
        ]
    );
}

#[test]
fn click_until_dom_changed_compares_the_page_source() {
    let script = vec![command(Some("button"), CommandType::ClickUntilDomChanged)];
    let actions = play(
        &script,
        vec![
            found(1),
            Reply::Text("<p>0</p>".to_string()),
            Reply::Done,
            Reply::Text("<p>0</p>".to_string()),
            found(2),
            Reply::Done,
            Reply::Text("<p>1</p>".to_string()),
        ],
    );
    assert_eq!(
        actions,
        vec![
            find("button", None),
            Action::PageSource,
            click(1),
            Action::PageSource,
            find("button", None),
            click(2),
            Action::PageSource,
            finish(Ok(())),
        ]
    );
}

#[test]
fn click_failure_in_a_repeated_click_is_not_retried_locally() {
    let script = vec![command(Some("a"), CommandType::ClickUntilNavigation)];
    let actions = play(
        &script,
        vec![
            found(1),
            Reply::Text("u".to_string()),
            Reply::Done,
            Reply::Text("u".to_string()),
            failed(ErrorKind::NotFound, "gone"),
        ],
    );
    assert_eq!(
        actions.last(),
        Some(&finish(Err(session_error(ErrorKind::NotFound, "gone"))))
    );
    assert_eq!(actions.len(), 6);
}

#[test]
fn missing_selector_ends_a_flat_run_before_any_action() {
    let kinds = vec![
        CommandType::Click,
        CommandType::Check,
        CommandType::Input("x".to_string()),
        CommandType::Wait,
        CommandType::EnterFrame,
        CommandType::ScrollIntoView,
        CommandType::Clear,
        CommandType::ClickUntilNavigation,
        CommandType::ClickUntilDomChanged,
        CommandType::Recursive(Box::new(command(Some("a"), CommandType::Click))),
    ];
    for kind in kinds {
        let script = vec![command(None, kind), command(None, CommandType::LeaveFrame)];
        assert_eq!(play(&script, vec![]), vec![finish(Err(RunError::MissingSelector))]);
    }
}

#[test]
fn missing_selector_in_a_loop_is_logged_and_retried() {
    let script = vec![command(None, CommandType::Loop(vec![command(None, CommandType::Click)]))];
    let (run, action) = Interpreter::start(&script);
    assert_eq!(action, retry_log("A command needs a selector string"));
    let (run, action) = run.resume(Reply::Done);
    assert_eq!(action, retry_log("A command needs a selector string"));
    let (run, action) = run.resume(Reply::Done);
    assert_eq!(action, retry_log("A command needs a selector string"));
    assert_eq!(run.result(), None);
}

#[test]
fn reply_to_a_retry_notice_is_not_read() {
    let script =
        vec![command(None, CommandType::Loop(vec![command(Some("a"), CommandType::Check)]))];
    let actions = play(
        &script,
        vec![
            failed(ErrorKind::Other, "first"),
            failed(ErrorKind::SessionInvalid, "not read"),
            found(1),
        ],
    );
    assert_eq!(
        actions,
        vec![find("a", None), retry_log("first"), find("a", None), finish(Ok(()))]
    );
}

#[test]
fn sleep_never_fails() {
    let seconds = Seconds { bits: 1.5f64.to_bits() };
    let script = vec![
        command(Some("ignored"), CommandType::WaitForSeconds(seconds)),
        command(None, CommandType::LeaveFrame),
    ];
    let actions = play(&script, vec![failed(ErrorKind::Other, "late"), Reply::Done]);
    assert_eq!(
        actions,
        vec![Action::Sleep { seconds }, Action::EnterParentFrame, finish(Ok(()))]
    );
    match &actions[0] {
        Action::Sleep { seconds } => assert_eq!(f64::from_bits(seconds.bits), 1.5),
        other => panic!("not a pause: {:?}", other),
    }
}

#[test]
fn window_that_is_not_open_yet_is_waited_for_in_a_loop() {
    let script =
        vec![command(None, CommandType::Loop(vec![command(None, CommandType::ChangeWindow(1))]))];
    let actions = play(
        &script,
        vec![
            Reply::Windows(vec!["w0".to_string()]),
            Reply::Done,
            Reply::Windows(vec!["w0".to_string(), "w1".to_string()]),
            Reply::Done,
        ],
    );
    assert_eq!(
        actions,
        vec![
            Action::ListWindows,
            retry_log("Couldn't find the window"),
            Action::ListWindows,
            Action::SwitchToWindow { handle: "w1".to_string() },
            finish(Ok(())),
        ]
    );
}

#[test]
fn reply_of_the_wrong_shape_is_retried_in_a_loop() {
    let script =
        vec![command(None, CommandType::Loop(vec![command(None, CommandType::PrintSource)]))];
    let actions = play(
        &script,
        vec![Reply::Done, Reply::Done, Reply::Text("<html/>".to_string()), Reply::Done],
    );
    assert_eq!(
        actions,
        vec![
            Action::PageSource,
            retry_log("The reply does not answer the action"),
            Action::PageSource,
            log("<html/>"),
            finish(Ok(())),
        ]
    );
}

#[test]
fn retry_repeats_what_the_failed_pass_had_done() {
    let script = vec![command(
        None,
        CommandType::Loop(vec![
            command(None, CommandType::GoTo("https://x".to_string())),
            command(Some("input"), CommandType::Input("again".to_string())),
            command(Some("done"), CommandType::Check),
        ]),
    )];
    let actions = play(
        &script,
        vec![
            Reply::Done,
            found(1),
            Reply::Done,
            failed(ErrorKind::NotFound, "not yet"),
            Reply::Done,
            Reply::Done,
            found(2),
            Reply::Done,
            found(3),
        ],
    );
    let typed = Action::SendKeys { element: element(1), text: "again".to_string() };
    let typed_again = Action::SendKeys { element: element(2), text: "again".to_string() };
    assert_eq!(
        actions,
        vec![
            Action::Navigate { url: "https://x".to_string() },
            find("input", None),
            typed,
            find("done", None),
            retry_log("not yet"),
            Action::Navigate { url: "https://x".to_string() },
            find("input", None),
            typed_again,
            find("done", None),
            finish(Ok(())),
        ]
    );
}

#[test]
fn failure_after_a_loop_ends_the_run() {
    let script = vec![
        command(None, CommandType::Loop(vec![command(Some("a"), CommandType::Check)])),
        command(Some("b"), CommandType::Check),
        command(Some("c"), CommandType::Check),
    ];
    let actions = play(&script, vec![found(1), failed(ErrorKind::NotFound, "no b")]);
    assert_eq!(
        actions,
        vec![
            find("a", None),
            find("b", None),
            finish(Err(session_error(ErrorKind::NotFound, "no b"))),
        ]
    );
}

#[test]
fn descend_inside_a_loop_starts_over_from_the_outer_lookup() {
    let script = vec![command(
        None,
        CommandType::Loop(vec![command(
            Some("div"),
            CommandType::Recursive(Box::new(command(Some("a"), CommandType::Click))),
        )]),
    )];
    let actions = play(
        &script,
        vec![
            found(1),
            failed(ErrorKind::NotFound, "no a"),
            Reply::Done,
            found(2),
            found(3),
            Reply::Done,
        ],
    );
    assert_eq!(
        actions,
        vec![
            find("div", None),
            find("a", Some(1)),
            retry_log("no a"),
            find("div", None),
            find("a", Some(2)),
            click(3),
            finish(Ok(())),
        ]
    );
}

#[test]
fn failed_lookup_of_the_page_source_fails_the_command() {
    let script = vec![command(None, CommandType::PrintSource)];
    let actions = play(&script, vec![failed(ErrorKind::Other, "lost")]);
    assert_eq!(
        actions,
        vec![Action::PageSource, finish(Err(session_error(ErrorKind::Other, "lost")))]
    );
}
