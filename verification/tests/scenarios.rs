use capability_tree::button::{Button, ButtonMut};
use capability_tree::gateway::{ControlEvent, Gateway, ResourceKind};
use capability_tree::root::Root;

#[test]
fn two_windows_one_after_the_other() {
    let mut gateway = Gateway::new();
    let mut root = Root::new();
    let w1 = root.make_child(&mut gateway);
    let w1_id = w1.get_id();
    assert_eq!(w1_id, 1);
    let w2 = root.make_child(&mut gateway);
    let w2_id = w2.get_id();
    assert_eq!(w2_id, 2);
    let found1 = root.get_child(1, &gateway).unwrap();
    let found2 = root.get_child(2, &gateway).unwrap();
    assert_eq!(found1.get_id(), 1);
    assert_eq!(found2.get_id(), 2);
}

#[test]
fn a_whole_tree_is_built_and_read_back() {
    let mut gateway = Gateway::new();
    let mut root = Root::new();
    let window1 = root.make_child(&mut gateway);
    let w1_id = window1.get_id();
    let id2 = root.make_child(&mut gateway).get_id();
    {
        let window1 = root.get_child(w1_id, &gateway).unwrap();
        let window2 = root.get_child(id2, &gateway).unwrap();
        assert_eq!(window1.get_id(), 1);
        assert_eq!(window2.get_id(), 2);
    }

    let mut window1 = root.get_child_mut(w1_id, &gateway).unwrap();
    let button = window1.make_button(&mut gateway);
    let b_id = button.get_id();
    let mut frame = window1.make_frame(&mut gateway);
    let fr_b_id = frame.make_button(&mut gateway).get_id();
    let f_id = frame.get_id();
    assert_eq!((b_id, f_id, fr_b_id), (1, 1, 1));

    let window1 = root.get_child(w1_id, &gateway).unwrap();
    let frame = window1.get_frame(f_id, &gateway).unwrap();
    let w_b = window1.get_button(b_id, &gateway).unwrap();
    let fr_b = frame.get_button(fr_b_id, &gateway).unwrap();
    assert_eq!(frame.get_id(), f_id);
    assert_eq!(w_b.get_id(), b_id);
    assert_eq!(fr_b.get_id(), fr_b_id);
    assert!(!w_b.is_clicked());
    assert!(!fr_b.is_clicked());

    assert_eq!(gateway.issued(ResourceKind::Window), 2);
    assert_eq!(gateway.issued(ResourceKind::Frame), 1);
    assert_eq!(gateway.issued(ResourceKind::WindowButton), 1);
    assert_eq!(gateway.issued(ResourceKind::FrameButton), 1);
}

#[test]
fn a_form_is_filled_in() {
    let mut gateway = Gateway::new();
    let mut root = Root::new();
    let mut window = root.make_child(&mut gateway);
    window.set_name(String::from("Settings"));
    {
        let mut close = window.make_button(&mut gateway);
        close.set_text(String::from("Close"), &mut gateway);
    }
    {
        let mut panel = window.make_frame(&mut gateway);
        panel.set_width(250);
        let mut apply = panel.make_button(&mut gateway);
        apply.set_text(String::from("Apply"), &mut gateway);
        apply.click(&mut gateway);
        assert_eq!(apply.get_text(), "Apply");
    }
    assert_eq!(window.get_name(), "Settings");
    assert_eq!(window.frames_amount(), 1);
    assert_eq!(window.buttons_amount(), 1);
    assert_eq!(
        gateway.events(),
        &vec![
            ControlEvent::WindowButtonTextSet {
                window_id: 1,
                button_id: 1,
                text: String::from("Close")
            },
            ControlEvent::FrameButtonTextSet {
                frame_id: 1,
                button_id: 1,
                text: String::from("Apply")
            },
            ControlEvent::FrameButtonClicked { frame_id: 1, button_id: 1 },
        ]
    );
}
