use tskm::board::{EditEvents, FrameInfo, KeyInput, TabEvents, TaskApp};
use tskm::model::{Project, SaveData, Section, SectionFocus, Task};

fn texts(app: &TaskApp, p: usize, s: usize) -> Vec<String> {
    app.projects[p].sections[s].tasks.iter().map(|t| t.text.clone()).collect()
}

fn ids(app: &TaskApp, p: usize, s: usize) -> Vec<usize> {
    app.projects[p].sections[s].tasks.iter().map(|t| t.id).collect()
}

fn all_ids(app: &TaskApp) -> Vec<usize> {
    let mut v = Vec::new();
    for p in &app.projects {
        for s in &p.sections {
            for t in &s.tasks {
                v.push(t.id);
            }
        }
    }
    v.sort();
    v
}

fn no_keys() -> KeyInput {
    KeyInput {
        ctrl: false,
        arrow_up: false,
        arrow_down: false,
        arrow_left: false,
        arrow_right: false,
        delete: false,
        f2: false,
    }
}

fn section(name: &str, tasks: &[(usize, &str)]) -> Section {
    Section {
        name: name.to_string(),
        tasks: tasks.iter().map(|(id, t)| Task { id: *id, text: t.to_string() }).collect(),
        new_task_text: String::new(),
    }
}

/// Two sections: "a" with tasks 1, 2, 3 and "b" with none.
fn small_app() -> TaskApp {
    TaskApp::from_save_data(SaveData {
        projects: vec![Project {
            name: "p".to_string(),
            sections: vec![section("a", &[(1, "one"), (2, "two"), (3, "three")]), section("b", &[])],
        }],
        next_id: 4,
        notes: String::new(),
    })
}

#[test]
fn sample_board_content() {
    let app = TaskApp::sample();
    assert_eq!(app.projects.len(), 1);
    assert_eq!(app.projects[0].name, "project-1");
    assert_eq!(app.projects[0].sections.len(), 4);
    assert_eq!(app.projects[0].sections[3].name, "pushed updates for testing-");
    assert_eq!(texts(&app, 0, 0), vec!["private lobby?", "invite email", "seat change option"]);
    assert_eq!(all_ids(&app), (1..=10).collect::<Vec<usize>>());
    assert_eq!(app.next_id, 11);
    assert_eq!(app.focus, SectionFocus::Task(0));
    assert_eq!(app.selected_project, 0);
    assert_eq!(app.selected_section, 0);
    assert_eq!(app.notes, "");
    assert_eq!(app.notes_header, "notes-");
    assert!(app.is_valid());
}

#[test]
fn open_saved_focus_rules() {
    let app = small_app();
    assert_eq!(app.focus, SectionFocus::Task(0));
    let empty_first = TaskApp::from_save_data(SaveData {
        projects: vec![Project { name: "p".to_string(), sections: vec![section("a", &[])] }],
        next_id: 1,
        notes: "n".to_string(),
    });
    assert_eq!(empty_first.focus, SectionFocus::NewTaskLine);
    assert_eq!(empty_first.notes, "n");
    let none = TaskApp::from_save_data(SaveData { projects: vec![], next_id: 7, notes: String::new() });
    assert_eq!(none.focus, SectionFocus::NewTaskLine);
    assert_eq!(none.next_id, 7);
    assert!(none.is_valid());
}

#[test]
fn save_then_open_round_trip() {
    let mut app = TaskApp::sample();
    app.notes = "remember".to_string();
    app.selected_section = 2;
    app.focus = SectionFocus::Notes;
    let data = app.save_data();
    assert_eq!(data.next_id, 11);
    assert_eq!(data.notes, "remember");
    let back = TaskApp::from_save_data(data);
    for s in 0..4 {
        assert_eq!(texts(&back, 0, s), texts(&app, 0, s));
        assert_eq!(ids(&back, 0, s), ids(&app, 0, s));
    }
    assert_eq!(back.notes, "remember");
    assert_eq!(back.selected_section, 0);
    assert_eq!(back.focus, SectionFocus::Task(0));
}

#[test]
fn move_task_to_other_section() {
    let mut app = TaskApp::sample();
    app.move_selected_to_section(2);
    assert_eq!(texts(&app, 0, 0), vec!["invite email", "seat change option"]);
    assert_eq!(
        texts(&app, 0, 2),
        vec!["control panel on controller changes orientation", "private lobby?"]
    );
    assert_eq!(app.selected_section, 2);
    assert_eq!(app.focus, SectionFocus::Task(1));
    assert_eq!(all_ids(&app), (1..=10).collect::<Vec<usize>>());
}

#[test]
fn move_task_no_op_cases() {
    let mut app = small_app();
    app.move_selected_to_section(0);
    assert_eq!(ids(&app, 0, 0), vec![1, 2, 3]);
    app.move_selected_to_section(5);
    assert_eq!(ids(&app, 0, 0), vec![1, 2, 3]);
    app.focus = SectionFocus::NewTaskLine;
    app.move_selected_to_section(1);
    assert_eq!(ids(&app, 0, 0), vec![1, 2, 3]);
    app.focus = SectionFocus::Task(9);
    app.move_selected_to_section(1);
    assert_eq!(ids(&app, 0, 0), vec![1, 2, 3]);
    assert_eq!(app.selected_section, 0);
}

#[test]
fn delete_middle_last_and_only() {
    let mut app = small_app();
    app.focus = SectionFocus::Task(1);
    app.delete_selected_task();
    assert_eq!(ids(&app, 0, 0), vec![1, 3]);
    assert_eq!(app.focus, SectionFocus::Task(1));
    app.delete_selected_task();
    assert_eq!(ids(&app, 0, 0), vec![1]);
    assert_eq!(app.focus, SectionFocus::Task(0));
    app.delete_selected_task();
    assert!(app.projects[0].sections[0].tasks.is_empty());
    assert_eq!(app.focus, SectionFocus::NewTaskLine);
    app.delete_selected_task();
    assert!(app.projects[0].sections[0].tasks.is_empty());
}

#[test]
fn delete_ignores_missing_section_and_header_focus() {
    let mut app = small_app();
    app.focus = SectionFocus::Header;
    app.delete_selected_task();
    assert_eq!(ids(&app, 0, 0), vec![1, 2, 3]);
    app.focus = SectionFocus::Task(0);
    app.selected_section = 7;
    app.delete_selected_task();
    assert_eq!(ids(&app, 0, 0), vec![1, 2, 3]);
}

#[test]
fn begin_frame_clamps_selection() {
    let mut app = small_app();
    app.selected_project = 3;
    app.selected_section = 9;
    let f = app.begin_frame();
    assert_eq!(app.selected_project, 0);
    assert_eq!(app.selected_section, 1);
    assert_eq!(f.sec_count, 2);
    assert_eq!(f.current_sec, 1);
    assert_eq!(f.current_tasks_len, 0);
}

#[test]
fn ctrl_arrows_move_task_with_wrap() {
    let mut app = small_app();
    let mut k = no_keys();
    k.ctrl = true;
    k.arrow_up = true;
    assert!(app.handle_keys(&k));
    assert_eq!(ids(&app, 0, 1), vec![1]);
    assert_eq!(app.selected_section, 1);
    assert_eq!(app.focus, SectionFocus::Task(0));
    k.arrow_up = false;
    k.arrow_down = true;
    assert!(app.handle_keys(&k));
    assert_eq!(ids(&app, 0, 0), vec![2, 3, 1]);
    assert_eq!(app.selected_section, 0);
    assert_eq!(app.focus, SectionFocus::Task(2));
}

#[test]
fn ctrl_left_right_focus() {
    let mut app = small_app();
    let mut k = no_keys();
    k.ctrl = true;
    k.arrow_left = true;
    assert!(!app.handle_keys(&k));
    assert_eq!(app.focus, SectionFocus::Notes);
    k.arrow_left = false;
    k.arrow_right = true;
    assert!(!app.handle_keys(&k));
    assert_eq!(app.focus, SectionFocus::NewTaskLine);
}

#[test]
fn arrows_walk_through_sections() {
    let mut app = small_app();
    let mut down = no_keys();
    down.arrow_down = true;
    let mut up = no_keys();
    up.arrow_up = true;
    assert!(!app.handle_keys(&down));
    assert_eq!(app.focus, SectionFocus::Task(1));
    app.handle_keys(&down);
    app.handle_keys(&down);
    assert_eq!(app.focus, SectionFocus::NewTaskLine);
    assert!(app.handle_keys(&down));
    assert_eq!(app.selected_section, 1);
    assert_eq!(app.focus, SectionFocus::NewTaskLine);
    assert!(app.handle_keys(&down));
    assert_eq!(app.selected_section, 0);
    assert_eq!(app.focus, SectionFocus::Task(0));
    assert!(app.handle_keys(&up));
    assert_eq!(app.selected_section, 1);
    assert_eq!(app.focus, SectionFocus::NewTaskLine);
    assert!(app.handle_keys(&up));
    assert_eq!(app.selected_section, 0);
    assert_eq!(app.focus, SectionFocus::NewTaskLine);
    assert!(app.handle_keys(&up));
    assert_eq!(app.focus, SectionFocus::Task(2));
    assert!(app.handle_keys(&up));
    assert_eq!(app.focus, SectionFocus::Task(1));
}

#[test]
fn arrows_ignored_on_header_and_notes() {
    let mut app = small_app();
    app.focus = SectionFocus::Header;
    let mut k = no_keys();
    k.arrow_down = true;
    k.arrow_up = true;
    assert!(!app.handle_keys(&k));
    assert_eq!(app.focus, SectionFocus::Header);
    app.focus = SectionFocus::Notes;
    assert!(!app.handle_keys(&k));
    assert_eq!(app.focus, SectionFocus::Notes);
}

#[test]
fn delete_and_f2_keys() {
    let mut app = small_app();
    let mut k = no_keys();
    k.delete = true;
    app.handle_keys(&k);
    assert_eq!(ids(&app, 0, 0), vec![2, 3]);
    assert_eq!(app.focus, SectionFocus::Task(0));
    let mut f2 = no_keys();
    f2.f2 = true;
    app.handle_keys(&f2);
    assert_eq!(app.focus, SectionFocus::Header);
    let mut ctrl_delete = no_keys();
    ctrl_delete.ctrl = true;
    ctrl_delete.delete = true;
    app.focus = SectionFocus::Task(0);
    app.handle_keys(&ctrl_delete);
    assert_eq!(ids(&app, 0, 0), vec![2, 3]);
}

#[test]
fn up_and_down_together_out_of_range_is_refused() {
    let mut app = small_app();
    app.focus = SectionFocus::Task(0);
    let mut k = no_keys();
    k.arrow_up = true;
    k.arrow_down = true;
    assert!(!app.accepts_keys(&k));
    app.focus = SectionFocus::Task(1);
    assert!(app.accepts_keys(&k));
    assert!(app.handle_keys(&k));
    assert_eq!(app.focus, SectionFocus::Task(1));
    assert!(app.accepts_keys(&no_keys()));
    let empty = TaskApp::from_save_data(SaveData { projects: vec![], next_id: 1, notes: String::new() });
    assert!(!empty.accepts_keys(&no_keys()));
}

#[test]
fn arrow_handlers_with_given_frame() {
    let mut app = small_app();
    app.focus = SectionFocus::NewTaskLine;
    let f = FrameInfo { sec_count: 2, current_sec: 0, current_tasks_len: 3 };
    assert!(app.arrow_up(f));
    assert_eq!(app.focus, SectionFocus::Task(2));
    assert!(!app.arrow_down(f));
    assert_eq!(app.focus, SectionFocus::NewTaskLine);
    assert!(app.arrow_down(f));
    assert_eq!(app.selected_section, 1);
}

#[test]
fn select_delete_and_add_projects() {
    let mut app = small_app();
    app.add_project();
    assert_eq!(app.projects.len(), 2);
    assert_eq!(app.projects[1].name, "project-2");
    let names: Vec<String> = app.projects[1].sections.iter().map(|s| s.name.clone()).collect();
    assert_eq!(names, vec!["pending-", "improvements to do-", "bugs-", "pushed updates-"]);
    assert_eq!(app.selected_project, 1);
    assert_eq!(app.focus, SectionFocus::NewTaskLine);
    app.select_project(0);
    assert_eq!(app.selected_project, 0);
    assert_eq!(app.selected_section, 0);
    assert_eq!(app.focus, SectionFocus::Task(0));
    app.select_project(1);
    assert!(!app.delete_project(1));
    assert_eq!(app.selected_project, 0);
    assert_eq!(app.focus, SectionFocus::NewTaskLine);
    assert!(app.delete_project(0));
    assert!(app.projects.is_empty());
    app.create_first_project();
    assert_eq!(app.projects[0].name, "Project-1");
    assert_eq!(app.projects[0].sections.len(), 2);
    assert_eq!(app.projects[0].sections[1].name, "bugs-");
    assert_eq!(app.focus, SectionFocus::NewTaskLine);
}

#[test]
fn delete_earlier_project_keeps_index() {
    let mut app = small_app();
    app.add_project();
    app.add_project();
    assert_eq!(app.projects[2].name, "project-3");
    app.select_project(1);
    app.delete_project(0);
    assert_eq!(app.selected_project, 1);
    assert_eq!(app.projects[1].name, "project-3");
}

#[test]
fn submit_trims_and_numbers_tasks() {
    let mut app = small_app();
    app.projects[0].sections[0].new_task_text = "  hello world \t".to_string();
    app.submit_new_task(0);
    assert_eq!(texts(&app, 0, 0), vec!["one", "two", "three", "hello world"]);
    assert_eq!(ids(&app, 0, 0), vec![1, 2, 3, 4]);
    assert_eq!(app.next_id, 5);
    assert_eq!(app.projects[0].sections[0].new_task_text, "");
    assert_eq!(app.focus, SectionFocus::Task(3));
    app.projects[0].sections[1].new_task_text = "other".to_string();
    app.submit_new_task(1);
    assert_eq!(ids(&app, 0, 1), vec![5]);
    assert_eq!(app.focus, SectionFocus::Task(3));
    assert_eq!(app.next_id, 6);
}

#[test]
fn submit_blank_changes_nothing() {
    let mut app = small_app();
    app.projects[0].sections[0].new_task_text = "   ".to_string();
    app.submit_new_task(0);
    assert_eq!(ids(&app, 0, 0), vec![1, 2, 3]);
    assert_eq!(app.next_id, 4);
    assert_eq!(app.projects[0].sections[0].new_task_text, "   ");
    app.record_task(0, String::new());
    assert_eq!(app.next_id, 4);
}

#[test]
fn ids_stay_unique() {
    let mut app = TaskApp::sample();
    for s in 0..4 {
        app.projects[0].sections[s].new_task_text = format!("task {}", s);
        app.submit_new_task(s);
    }
    app.focus = SectionFocus::Task(0);
    app.move_selected_to_section(3);
    app.delete_selected_task();
    let v = all_ids(&app);
    let mut dedup = v.clone();
    dedup.dedup();
    assert_eq!(v, dedup);
    assert!(v.iter().all(|id| *id < app.next_id));
    assert_eq!(app.next_id, 15);
}

#[test]
fn confirm_header_focus() {
    let mut app = small_app();
    app.focus = SectionFocus::Header;
    app.confirm_header();
    assert_eq!(app.focus, SectionFocus::Task(0));
    app.selected_section = 1;
    app.focus = SectionFocus::Header;
    app.confirm_header();
    assert_eq!(app.focus, SectionFocus::NewTaskLine);
}

#[test]
fn validity_check() {
    let mut app = small_app();
    assert!(app.is_valid());
    app.selected_project = 1;
    assert!(!app.is_valid());
    let bad = TaskApp::from_save_data(SaveData {
        projects: vec![Project { name: "p".to_string(), sections: vec![] }],
        next_id: 1,
        notes: String::new(),
    });
    assert!(!bad.is_valid());
}

#[test]
fn closing_a_project_takes_only_its_tasks() {
    let mut app = TaskApp::sample();
    app.add_project();
    app.projects[1].sections[0].new_task_text = "x".to_string();
    app.submit_new_task(0);
    assert_eq!(ids(&app, 1, 0), vec![11]);
    app.delete_project(1);
    assert_eq!(all_ids(&app), (1..=10).collect::<Vec<usize>>());
    assert_eq!(app.selected_project, 0);
}

#[test]
fn down_from_largest_index_is_refused() {
    let mut app = small_app();
    app.focus = SectionFocus::Task(usize::MAX);
    let mut k = no_keys();
    k.arrow_down = true;
    assert!(!app.accepts_keys(&k));
    let mut up = no_keys();
    up.arrow_up = true;
    assert!(app.accepts_keys(&up));
}

#[test]
fn key_sequence_keeps_focus_on_existing_task() {
    let mut app = TaskApp::sample();
    let mut down = no_keys();
    down.arrow_down = true;
    let mut del = no_keys();
    del.delete = true;
    for _ in 0..6 {
        app.handle_keys(&down);
        app.handle_keys(&del);
        if let SectionFocus::Task(i) = app.focus {
            assert!(i < app.projects[0].sections[app.selected_section].tasks.len());
        }
    }
}

#[test]
fn blank_draft_with_exhausted_ids_changes_nothing() {
    let mut app = small_app();
    app.next_id = usize::MAX;
    app.projects[0].sections[0].new_task_text = " \t\u{3000}\u{a0} ".to_string();
    app.submit_new_task(0);
    assert_eq!(ids(&app, 0, 0), vec![1, 2, 3]);
    assert_eq!(app.next_id, usize::MAX);
    assert_eq!(app.projects[0].sections[0].new_task_text, " \t\u{3000}\u{a0} ");
}

#[test]
fn unicode_white_space_is_trimmed() {
    let mut app = small_app();
    app.projects[0].sections[1].new_task_text = "\u{2003}\u{85}fix it\u{202f}\n".to_string();
    app.submit_new_task(1);
    assert_eq!(texts(&app, 0, 1), vec!["fix it"]);
    assert_eq!(app.focus, SectionFocus::Task(0));
}

#[test]
fn tab_events_in_order() {
    let mut app = small_app();
    app.add_project();
    let gone = app.handle_tabs(&TabEvents { select: Some(0), close: Some(1), add: true });
    assert!(!gone);
    assert_eq!(app.projects.len(), 2);
    assert_eq!(app.projects[1].name, "project-2");
    assert_eq!(app.selected_project, 1);
    assert_eq!(app.focus, SectionFocus::NewTaskLine);
    let mut single = small_app();
    let gone = single.handle_tabs(&TabEvents { select: None, close: Some(0), add: true });
    assert!(gone);
    assert!(single.projects.is_empty());
}

#[test]
fn edit_events_follow_drawing_order() {
    let mut app = small_app();
    app.selected_section = 1;
    app.focus = SectionFocus::Header;
    app.projects[0].sections[0].new_task_text = "late".to_string();
    app.handle_edits(&EditEvents { header_enter: true, submit: Some(0) });
    assert_eq!(ids(&app, 0, 0), vec![1, 2, 3, 4]);
    assert_eq!(app.focus, SectionFocus::NewTaskLine);
    let mut app2 = small_app();
    app2.focus = SectionFocus::Header;
    app2.projects[0].sections[0].new_task_text = "x".to_string();
    app2.handle_edits(&EditEvents { header_enter: true, submit: Some(0) });
    assert_eq!(app2.focus, SectionFocus::Task(3));
}
