use job_tracker::components::select_box::{SelectBox, SelectBoxState};

fn options() -> SelectBox {
    SelectBox {
        options: vec!["Remote".to_string(), "On Site".to_string()],
        title: "Location".to_string(),
    }
}

#[test]
fn the_box_shows_the_selected_option() {
    let line = options().render(&SelectBoxState { selected_index: 1 });
    assert_eq!(line.title, "Location");
    assert_eq!(line.selected, "On Site");
    assert_eq!(line.mark, '↕');
}

#[test]
fn a_selection_past_the_options_shows_nothing() {
    let line = options().render(&SelectBoxState { selected_index: 2 });
    assert_eq!(line.selected, "");
    let empty = SelectBox { options: Vec::new(), title: String::new() };
    assert_eq!(empty.render(&SelectBoxState { selected_index: 0 }).selected, "");
}
