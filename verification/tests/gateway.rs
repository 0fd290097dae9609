use capability_tree::gateway::{
    frame_button_click, frame_button_is_clicked, frame_button_set_text, get_window, make_frame,
    make_frame_button, make_window, make_window_button, validate, window_button_click,
    window_button_is_clicked, window_button_set_text, ControlEvent, Gateway, ResourceKind,
};

const KINDS: [ResourceKind; 4] = [
    ResourceKind::Window,
    ResourceKind::Frame,
    ResourceKind::WindowButton,
    ResourceKind::FrameButton,
];

#[test]
fn new_gateway_has_handed_out_nothing() {
    let gateway = Gateway::new();
    for kind in KINDS {
        assert_eq!(gateway.issued(kind), 0);
        assert!(gateway.can_issue(kind));
    }
    assert!(gateway.events().is_empty());
}

#[test]
fn make_window_counts_from_one() {
    let mut gateway = Gateway::new();
    assert_eq!(make_window(&mut gateway), 1);
    assert_eq!(make_window(&mut gateway), 2);
    assert_eq!(make_window(&mut gateway), 3);
    assert_eq!(gateway.issued(ResourceKind::Window), 3);
}

#[test]
fn get_window_answers_handed_out_identifiers_unchanged() {
    let mut gateway = Gateway::new();
    make_window(&mut gateway);
    make_window(&mut gateway);
    make_window(&mut gateway);
    assert_eq!(get_window(&gateway, 1), 1);
    assert_eq!(get_window(&gateway, 2), 2);
    assert_eq!(get_window(&gateway, 3), 3);
}

#[test]
fn get_window_answers_zero_for_unknown_identifiers() {
    let mut gateway = Gateway::new();
    assert_eq!(get_window(&gateway, 1), 0);
    make_window(&mut gateway);
    make_window(&mut gateway);
    assert_eq!(get_window(&gateway, 3), 0);
    assert_eq!(get_window(&gateway, 100), 0);
    assert_eq!(get_window(&gateway, usize::MAX), 0);
}

#[test]
fn get_window_answers_zero_for_zero() {
    let mut gateway = Gateway::new();
    assert_eq!(get_window(&gateway, 0), 0);
    make_window(&mut gateway);
    assert_eq!(get_window(&gateway, 0), 0);
}

#[test]
fn get_window_changes_nothing() {
    let mut gateway = Gateway::new();
    make_window(&mut gateway);
    get_window(&gateway, 1);
    get_window(&gateway, 7);
    assert_eq!(gateway.issued(ResourceKind::Window), 1);
    assert!(gateway.events().is_empty());
    assert_eq!(make_window(&mut gateway), 2);
}

#[test]
fn make_frame_counts_from_one_whatever_the_parent() {
    let mut gateway = Gateway::new();
    assert_eq!(make_frame(&mut gateway, 1), 1);
    assert_eq!(make_frame(&mut gateway, 1), 2);
    assert_eq!(make_frame(&mut gateway, 99), 3);
    assert_eq!(make_frame(&mut gateway, 0), 4);
    assert_eq!(gateway.issued(ResourceKind::Frame), 4);
}

#[test]
fn make_window_button_counts_from_one_whatever_the_parent() {
    let mut gateway = Gateway::new();
    assert_eq!(make_window_button(&mut gateway, 5), 1);
    assert_eq!(make_window_button(&mut gateway, 0), 2);
    assert_eq!(gateway.issued(ResourceKind::WindowButton), 2);
}

#[test]
fn make_frame_button_counts_from_one_whatever_the_parent() {
    let mut gateway = Gateway::new();
    assert_eq!(make_frame_button(&mut gateway, 5), 1);
    assert_eq!(make_frame_button(&mut gateway, 0), 2);
    assert_eq!(gateway.issued(ResourceKind::FrameButton), 2);
}

#[test]
fn each_kind_has_a_counter_of_its_own() {
    let mut gateway = Gateway::new();
    make_window(&mut gateway);
    make_window(&mut gateway);
    make_window(&mut gateway);
    make_frame(&mut gateway, 1);
    make_frame(&mut gateway, 1);
    make_window_button(&mut gateway, 1);
    assert_eq!(gateway.issued(ResourceKind::Window), 3);
    assert_eq!(gateway.issued(ResourceKind::Frame), 2);
    assert_eq!(gateway.issued(ResourceKind::WindowButton), 1);
    assert_eq!(gateway.issued(ResourceKind::FrameButton), 0);
    assert_eq!(make_frame_button(&mut gateway, 1), 1);
    assert_eq!(make_window_button(&mut gateway, 1), 2);
    assert_eq!(make_frame(&mut gateway, 1), 3);
    assert_eq!(make_window(&mut gateway), 4);
}

#[test]
fn validate_knows_each_kind_by_its_own_counter() {
    let mut gateway = Gateway::new();
    make_window(&mut gateway);
    make_window(&mut gateway);
    make_frame(&mut gateway, 1);
    assert_eq!(validate(&gateway, ResourceKind::Window, 2), 2);
    assert_eq!(validate(&gateway, ResourceKind::Frame, 2), 0);
    assert_eq!(validate(&gateway, ResourceKind::Frame, 1), 1);
    assert_eq!(validate(&gateway, ResourceKind::WindowButton, 1), 0);
    assert_eq!(validate(&gateway, ResourceKind::FrameButton, 1), 0);
    for kind in KINDS {
        assert_eq!(validate(&gateway, kind, 0), 0);
        assert_eq!(validate(&gateway, kind, usize::MAX), 0);
    }
}

#[test]
fn validate_agrees_with_get_window() {
    let mut gateway = Gateway::new();
    make_window(&mut gateway);
    make_window(&mut gateway);
    for id in 0..5 {
        assert_eq!(validate(&gateway, ResourceKind::Window, id), get_window(&gateway, id));
    }
}

#[test]
fn resume_starts_from_the_given_counts() {
    let mut gateway = Gateway::resume(4, 3, 2, 1);
    assert_eq!(gateway.issued(ResourceKind::Window), 4);
    assert_eq!(gateway.issued(ResourceKind::Frame), 3);
    assert_eq!(gateway.issued(ResourceKind::WindowButton), 2);
    assert_eq!(gateway.issued(ResourceKind::FrameButton), 1);
    assert!(gateway.events().is_empty());
    assert_eq!(get_window(&gateway, 4), 4);
    assert_eq!(get_window(&gateway, 5), 0);
    assert_eq!(make_window(&mut gateway), 5);
    assert_eq!(make_frame(&mut gateway, 5), 4);
    assert_eq!(make_window_button(&mut gateway, 5), 3);
    assert_eq!(make_frame_button(&mut gateway, 4), 2);
}

#[test]
fn last_identifier_is_handed_out_before_exhaustion() {
    let mut gateway = Gateway::resume(usize::MAX - 1, 0, 0, 0);
    assert!(gateway.can_issue(ResourceKind::Window));
    assert_eq!(make_window(&mut gateway), usize::MAX);
    assert!(!gateway.can_issue(ResourceKind::Window));
    assert_eq!(get_window(&gateway, usize::MAX), usize::MAX);
}

#[test]
fn exhausted_window_counter_answers_zero_and_stays() {
    let mut gateway = Gateway::resume(usize::MAX, 0, 0, 0);
    assert!(!gateway.can_issue(ResourceKind::Window));
    assert_eq!(make_window(&mut gateway), 0);
    assert_eq!(make_window(&mut gateway), 0);
    assert_eq!(gateway.issued(ResourceKind::Window), usize::MAX);
    assert_eq!(get_window(&gateway, 0), 0);
    assert_eq!(get_window(&gateway, usize::MAX), usize::MAX);
}

#[test]
fn exhausted_nested_counters_answer_zero_and_stay() {
    let mut gateway = Gateway::resume(0, usize::MAX, usize::MAX, usize::MAX);
    assert_eq!(make_frame(&mut gateway, 1), 0);
    assert_eq!(make_window_button(&mut gateway, 1), 0);
    assert_eq!(make_frame_button(&mut gateway, 1), 0);
    assert_eq!(gateway.issued(ResourceKind::Frame), usize::MAX);
    assert_eq!(gateway.issued(ResourceKind::WindowButton), usize::MAX);
    assert_eq!(gateway.issued(ResourceKind::FrameButton), usize::MAX);
    assert!(gateway.can_issue(ResourceKind::Window));
    assert_eq!(make_window(&mut gateway), 1);
}

#[test]
fn buttons_are_never_reported_clicked() {
    let mut gateway = Gateway::new();
    make_window(&mut gateway);
    make_window_button(&mut gateway, 1);
    make_frame(&mut gateway, 1);
    make_frame_button(&mut gateway, 1);
    assert!(!window_button_is_clicked(1, 1));
    assert!(!frame_button_is_clicked(1, 1));
    window_button_click(&mut gateway, 1, 1);
    frame_button_click(&mut gateway, 1, 1);
    assert!(!window_button_is_clicked(1, 1));
    assert!(!frame_button_is_clicked(1, 1));
    assert!(!window_button_is_clicked(8, 9));
    assert!(!frame_button_is_clicked(0, 0));
}

#[test]
fn window_button_click_is_written_down() {
    let mut gateway = Gateway::new();
    window_button_click(&mut gateway, 3, 7);
    assert_eq!(
        gateway.events(),
        &vec![ControlEvent::WindowButtonClicked { window_id: 3, button_id: 7 }]
    );
}

#[test]
fn frame_button_click_is_written_down() {
    let mut gateway = Gateway::new();
    frame_button_click(&mut gateway, 4, 2);
    assert_eq!(
        gateway.events(),
        &vec![ControlEvent::FrameButtonClicked { frame_id: 4, button_id: 2 }]
    );
}

#[test]
fn window_button_text_is_written_down() {
    let mut gateway = Gateway::new();
    let text = String::from("Save");
    window_button_set_text(&mut gateway, 1, 2, &text);
    assert_eq!(
        gateway.events(),
        &vec![ControlEvent::WindowButtonTextSet {
            window_id: 1,
            button_id: 2,
            text: String::from("Save")
        }]
    );
    assert_eq!(text, "Save");
}

#[test]
fn frame_button_text_is_written_down() {
    let mut gateway = Gateway::new();
    frame_button_set_text(&mut gateway, 6, 5, &String::new());
    assert_eq!(
        gateway.events(),
        &vec![ControlEvent::FrameButtonTextSet { frame_id: 6, button_id: 5, text: String::new() }]
    );
}

#[test]
fn journal_keeps_the_order_of_requests() {
    let mut gateway = Gateway::new();
    window_button_click(&mut gateway, 1, 1);
    frame_button_set_text(&mut gateway, 2, 1, &String::from("a"));
    frame_button_click(&mut gateway, 2, 1);
    window_button_set_text(&mut gateway, 1, 1, &String::from("b"));
    window_button_click(&mut gateway, 1, 1);
    assert_eq!(
        gateway.events(),
        &vec![
            ControlEvent::WindowButtonClicked { window_id: 1, button_id: 1 },
            ControlEvent::FrameButtonTextSet { frame_id: 2, button_id: 1, text: String::from("a") },
            ControlEvent::FrameButtonClicked { frame_id: 2, button_id: 1 },
            ControlEvent::WindowButtonTextSet {
                window_id: 1,
                button_id: 1,
                text: String::from("b")
            },
            ControlEvent::WindowButtonClicked { window_id: 1, button_id: 1 },
        ]
    );
}

#[test]
fn journal_entries_move_no_counter() {
    let mut gateway = Gateway::resume(1, 1, 1, 1);
    window_button_click(&mut gateway, 1, 1);
    window_button_set_text(&mut gateway, 1, 1, &String::from("x"));
    frame_button_click(&mut gateway, 1, 1);
    frame_button_set_text(&mut gateway, 1, 1, &String::from("y"));
    for kind in KINDS {
        assert_eq!(gateway.issued(kind), 1);
    }
    assert_eq!(gateway.events().len(), 4);
}

#[test]
fn creations_write_nothing_down() {
    let mut gateway = Gateway::new();
    make_window(&mut gateway);
    make_frame(&mut gateway, 1);
    make_window_button(&mut gateway, 1);
    make_frame_button(&mut gateway, 1);
    assert!(gateway.events().is_empty());
}

#[test]
fn gateway_accepts_requests_about_unknown_controls() {
    let mut gateway = Gateway::new();
    window_button_click(&mut gateway, 40, 50);
    frame_button_set_text(&mut gateway, 0, 0, &String::from("nobody"));
    assert_eq!(gateway.events().len(), 2);
    assert_eq!(make_frame(&mut gateway, 12345), 1);
}

#[test]
fn identifiers_handed_out_are_exactly_those_answered() {
    let mut gateway = Gateway::new();
    let mut answered = Vec::new();
    for round in 0..6 {
        answered.push(make_frame(&mut gateway, round));
        window_button_click(&mut gateway, round, round);
    }
    for id in 0..10 {
        let found = validate(&gateway, ResourceKind::Frame, id) == id && id != 0;
        assert_eq!(found, answered.contains(&id));
    }
}

#[test]
fn identifiers_of_one_kind_never_repeat() {
    let mut gateway = Gateway::new();
    let mut answered = Vec::new();
    for round in 0..8 {
        let id = make_window_button(&mut gateway, 1);
        assert!(!answered.contains(&id));
        if let Some(last) = answered.last() {
            assert!(*last < id);
        }
        answered.push(id);
        if round % 2 == 0 {
            make_frame_button(&mut gateway, 1);
        }
    }
}
