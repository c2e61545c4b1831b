use ddrpc::config::{ProcessConfig, ProcessesConfig};
use ddrpc::processes::{
    add_process, change_process_priority, data_list_text, decimal_string, find_process,
    get_active_data, get_names, priority_message, removed_message, running_names,
    new_priority_index, remove_process, CliProcessesAdd, CliProcessesPriority, PriorityOperation,
    ProcessError,
};

fn entry(name: &str, text: &str, image: &str) -> ProcessConfig {
    ProcessConfig::new(name.to_string(), text.to_string(), image.to_string())
}

fn three() -> ProcessesConfig {
    ProcessesConfig {
        processes: vec![
            entry("a", "Playing A", "a_icon"),
            entry("b", "Playing B", "b_icon"),
            entry("c", "Playing C", "c_icon"),
        ],
        idle_text: String::new(),
        idle_image: String::new(),
    }
}

fn names(config: &ProcessesConfig) -> Vec<String> {
    config.processes.iter().map(|p| p.name.clone()).collect()
}

fn reorder(config: &mut ProcessesConfig, name: &str, operation: PriorityOperation) -> Result<usize, ProcessError> {
    change_process_priority(config, CliProcessesPriority { name: name.to_string(), operation })
}

#[test]
fn decrease_at_tail_stays_at_tail() {
    let mut config = three();
    assert_eq!(reorder(&mut config, "c", PriorityOperation::Decrease).ok(), Some(2));
    assert_eq!(names(&config), vec!["a", "b", "c"]);
}

#[test]
fn increase_at_head_stays_at_head() {
    let mut config = three();
    assert_eq!(reorder(&mut config, "a", PriorityOperation::Increase).ok(), Some(0));
    assert_eq!(names(&config), vec!["a", "b", "c"]);
}

#[test]
fn move_out_of_range_clamps_to_last() {
    let mut config = three();
    assert_eq!(reorder(&mut config, "a", PriorityOperation::MoveTo(10)).ok(), Some(2));
    assert_eq!(names(&config), vec!["b", "c", "a"]);
}

#[test]
fn decrease_moves_one_later() {
    let mut config = three();
    assert_eq!(reorder(&mut config, "a", PriorityOperation::Decrease).ok(), Some(1));
    assert_eq!(names(&config), vec!["b", "a", "c"]);
}

#[test]
fn increase_moves_one_earlier() {
    let mut config = three();
    assert_eq!(reorder(&mut config, "c", PriorityOperation::Increase).ok(), Some(1));
    assert_eq!(names(&config), vec!["a", "c", "b"]);
}

#[test]
fn move_to_front() {
    let mut config = three();
    assert_eq!(reorder(&mut config, "c", PriorityOperation::MoveTo(0)).ok(), Some(0));
    assert_eq!(names(&config), vec!["c", "a", "b"]);
    assert_eq!(config.processes[0].text, "Playing C");
}

#[test]
fn priority_of_missing_name_fails_unchanged() {
    let mut config = three();
    let r = reorder(&mut config, "zzz", PriorityOperation::Decrease);
    match r {
        Err(e) => assert_eq!(e.message(), "No process named zzz found"),
        Ok(_) => panic!("expected not found"),
    }
    assert_eq!(names(&config), vec!["a", "b", "c"]);
}

#[test]
fn remove_missing_name_fails_unchanged() {
    let mut config = three();
    match remove_process(&mut config, "zzz".to_string()) {
        Err(ProcessError::NotFound(n)) => assert_eq!(n, "zzz"),
        Ok(_) => panic!("expected not found"),
    }
    assert_eq!(names(&config), vec!["a", "b", "c"]);
}

#[test]
fn remove_takes_out_first_match() {
    let mut config = three();
    config.processes.push(entry("b", "Second B", "b2"));
    assert!(remove_process(&mut config, "b".to_string()).is_ok());
    assert_eq!(names(&config), vec!["a", "c", "b"]);
    assert_eq!(config.processes[2].text, "Second B");
}

#[test]
fn add_appends_at_end() {
    let mut config = three();
    let index = add_process(
        &mut config,
        CliProcessesAdd { name: "d".to_string(), text: "Playing D".to_string(), image: "d_icon".to_string() },
    );
    assert_eq!(index, 3);
    assert_eq!(names(&config), vec!["a", "b", "c", "d"]);
    assert_eq!(config.processes[3].text, "Playing D");
    assert_eq!(config.processes[3].image, "d_icon");
}

#[test]
fn first_configured_match_wins() {
    let config = ProcessesConfig {
        processes: vec![entry("a", "Text A", "img_a"), entry("b", "Text B", "img_b")],
        idle_text: String::new(),
        idle_image: String::new(),
    };
    let running = vec!["a".to_string(), "b".to_string()];
    assert_eq!(get_active_data(&config, &running), ("Text A".to_string(), "img_a".to_string()));

    let reversed = ProcessesConfig {
        processes: vec![entry("b", "Text B", "img_b"), entry("a", "Text A", "img_a")],
        idle_text: String::new(),
        idle_image: String::new(),
    };
    let running = vec!["b".to_string(), "a".to_string()];
    assert_eq!(get_active_data(&reversed, &running), ("Text B".to_string(), "img_b".to_string()));
}

#[test]
fn idle_fallback_uses_literal_defaults() {
    let config = three();
    assert_eq!(get_active_data(&config, &Vec::new()), ("Idle".to_string(), "idle".to_string()));
}

#[test]
fn idle_fallback_uses_configured_values() {
    let mut config = three();
    config.idle_text = "Away".to_string();
    config.idle_image = "away_icon".to_string();
    assert_eq!(get_active_data(&config, &Vec::new()), ("Away".to_string(), "away_icon".to_string()));
}

#[test]
fn unknown_running_name_gives_idle() {
    let config = three();
    let running = vec!["zzz".to_string()];
    assert_eq!(get_active_data(&config, &running), ("Idle".to_string(), "idle".to_string()));
}

#[test]
fn find_process_gives_first_index() {
    let mut config = three();
    config.processes.push(entry("a", "again", "again"));
    assert_eq!(find_process(&config.processes, &"a".to_string()), Some(0));
    assert_eq!(find_process(&config.processes, &"c".to_string()), Some(2));
    assert_eq!(find_process(&config.processes, &"A".to_string()), None);
}

#[test]
fn priority_index_formula() {
    assert_eq!(new_priority_index(&PriorityOperation::Decrease, 0, 3), 1);
    assert_eq!(new_priority_index(&PriorityOperation::Decrease, 2, 3), 2);
    assert_eq!(new_priority_index(&PriorityOperation::Increase, 0, 3), 0);
    assert_eq!(new_priority_index(&PriorityOperation::Increase, 2, 3), 1);
    assert_eq!(new_priority_index(&PriorityOperation::MoveTo(10), 0, 3), 2);
    assert_eq!(new_priority_index(&PriorityOperation::MoveTo(1), 0, 1), 0);
}

#[test]
fn get_names_skips_entries_not_running() {
    let config = ProcessesConfig {
        processes: vec![entry("no-such-executable-name-xyz", "t", "i")],
        idle_text: String::new(),
        idle_image: String::new(),
    };
    assert!(get_names(&config).is_empty());
}

#[test]
fn decimal_forms() {
    assert_eq!(decimal_string(0), "0");
    assert_eq!(decimal_string(7), "7");
    assert_eq!(decimal_string(10), "10");
    assert_eq!(decimal_string(4096), "4096");
    assert_eq!(decimal_string(usize::MAX), usize::MAX.to_string());
}

#[test]
fn list_rendering() {
    let config = ProcessesConfig {
        processes: vec![entry("a", "Text A", "img_a"), entry("b", "Text B", "img_b")],
        idle_text: String::new(),
        idle_image: String::new(),
    };
    assert_eq!(
        data_list_text(&config),
        "Process 0\n\tIcon: \"img_a\"\n\tText: \"Text A\"\n\tName: \"a\"\nProcess 1\n\tIcon: \"img_b\"\n\tText: \"Text B\"\n\tName: \"b\"\n"
    );
    assert_eq!(data_list_text(&empty_list()), "");
}

fn empty_list() -> ProcessesConfig {
    ProcessesConfig { processes: Vec::new(), idle_text: String::new(), idle_image: String::new() }
}

#[test]
fn edit_messages() {
    assert_eq!(priority_message(&"game".to_string(), 12), "Set process game to priority 12");
    assert_eq!(removed_message(&"game".to_string()), "Removed process game");
}

#[test]
fn running_names_follow_configured_order() {
    let config = ProcessesConfig {
        processes: vec![entry("a", "Text A", "img_a"), entry("x", "Text X", "img_x"), entry("b", "Text B", "img_b")],
        idle_text: String::new(),
        idle_image: String::new(),
    };
    let found = vec![Some("a".to_string()), None, Some("b".to_string())];
    assert_eq!(running_names(&config, &found), vec!["a", "b"]);
    let none: Vec<Option<String>> = vec![None, None, None];
    assert!(running_names(&config, &none).is_empty());
}
