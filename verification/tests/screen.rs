use blog_workflow::screen::{Button, Draw, Screen, SelectBox, Widget};

#[test]
fn add_keeps_components_in_order() {
    let mut screen = Screen { components: vec![] };
    screen.add(Widget::Button(Button {
        width: 32,
        height: 23,
        label: String::from("OK"),
    }));
    screen.add(Widget::SelectBox(SelectBox {
        width: 25,
        height: 32,
        options: vec![String::from("sunny"), String::from("cloudy")],
    }));
    assert_eq!(screen.components.len(), 2);
    match &screen.components[0] {
        Widget::Button(button) => assert_eq!(button.label, "OK"),
        Widget::SelectBox(_) => panic!("expected the button first"),
    }
    match &screen.components[1] {
        Widget::SelectBox(select_box) => assert_eq!(select_box.options.len(), 2),
        Widget::Button(_) => panic!("expected the select box second"),
    }
}

#[test]
fn draw_all_visits_every_component() {
    let mut screen = Screen { components: vec![] };
    screen.add(Widget::Button(Button {
        width: 1,
        height: 1,
        label: String::new(),
    }));
    screen.draw_all();
}

#[test]
fn widgets_draw_directly() {
    let button = Button {
        width: 4,
        height: 2,
        label: String::from("Go"),
    };
    button.draw();
    let select_box = SelectBox {
        width: 4,
        height: 2,
        options: vec![],
    };
    select_box.draw();
}

#[test]
fn screen_demo_runs() {
    blog_workflow::screen::demo();
}
