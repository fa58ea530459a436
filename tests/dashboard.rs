use silly_goals_auth::dashboard::{
    check_stage, group_goals_by_stage, group_path, icon_from_word, is_past_deadline,
    parse_return_to, stage_border_light, stage_color, stage_color_light, stage_loop_comp,
    stage_text, CalendarDate, DeadlineError, IconError, ReturnTo, ReturnToError, StageError,
};
use silly_goals_auth::{DeadlineType, Goal, GoalBehavior, Group, GroupDisplay, GroupWithInfo};

fn goal(id: i64, stage: i64, deadline: Option<&str>) -> Goal {
    Goal {
        id,
        title: format!("goal {}", id),
        description: None,
        stage,
        group_id: 1,
        deadline: deadline.map(|d| d.to_string()),
    }
}

fn ids(goals: &Vec<Goal>) -> Vec<i64> {
    goals.iter().map(|g| g.id).collect()
}

#[test]
fn goals_are_grouped_by_stage_in_order() {
    let goals = vec![
        goal(1, 2, None),
        goal(2, 0, None),
        goal(3, 2, None),
        goal(4, 7, None),
        goal(5, 3, None),
        goal(6, -1, None),
    ];
    let columns = group_goals_by_stage(goals);
    assert_eq!(columns.len(), 4);
    assert_eq!(ids(&columns[0]), vec![2]);
    assert_eq!(ids(&columns[1]), Vec::<i64>::new());
    assert_eq!(ids(&columns[2]), vec![1, 3]);
    assert_eq!(ids(&columns[3]), vec![5]);
}

#[test]
fn no_goals_give_four_empty_columns() {
    let columns = group_goals_by_stage(vec![]);
    assert_eq!(columns.len(), 4);
    assert!(columns.iter().all(|c| c.is_empty()));
}

#[test]
fn stage_classes() {
    assert_eq!(stage_color(0), "bg-rose-500");
    assert_eq!(stage_color(3), "bg-emerald-500");
    assert_eq!(stage_color(4), "bg-gray-500");
    assert_eq!(stage_color(-1), "bg-gray-500");
    assert_eq!(stage_color_light(1), "bg-amber-200");
    assert_eq!(stage_color_light(9), "bg-gray-200");
    assert_eq!(stage_border_light(2), "border-sky-200");
    assert_eq!(stage_border_light(5), "border-gray-200");
}

#[test]
fn stage_comparison_and_labels() {
    assert!(stage_loop_comp(2, 2));
    assert!(!stage_loop_comp(2, 3));
    assert!(!stage_loop_comp(-1, 0));
    let stages = vec!["Idea".to_string(), "Going".to_string()];
    assert_eq!(stage_text(1, &stages), "Going");
    assert_eq!(stage_text(2, &stages), "unknown");
    assert_eq!(stage_text(-1, &stages), "unknown");
}

#[test]
fn stage_must_be_between_zero_and_four() {
    assert_eq!(check_stage(0), Ok(0));
    assert_eq!(check_stage(4), Ok(4));
    assert_eq!(check_stage(5), Err(StageError::OutOfRange));
    assert_eq!(check_stage(-1), Err(StageError::OutOfRange));
}

#[test]
fn deadlines_compare_by_day() {
    let today = CalendarDate { year: 2024, month: 3, day: 15 };
    assert_eq!(is_past_deadline(&goal(1, 0, None), today), Ok(false));
    assert_eq!(is_past_deadline(&goal(1, 0, Some("2024-03-14")), today), Ok(true));
    assert_eq!(is_past_deadline(&goal(1, 0, Some("2024-03-15")), today), Ok(false));
    assert_eq!(is_past_deadline(&goal(1, 0, Some("2023-12-31")), today), Ok(true));
    assert_eq!(is_past_deadline(&goal(1, 0, Some("2025-01-01")), today), Ok(false));
    assert_eq!(is_past_deadline(&goal(1, 0, Some("15/03/2024")), today), Err(DeadlineError::Unparsable));
}

#[test]
fn icon_is_the_first_letter_upper_cased() {
    assert_eq!(icon_from_word("hello"), Ok("H".to_string()));
    assert_eq!(icon_from_word("ßtraße"), Ok("SS".to_string()));
    assert_eq!(icon_from_word(""), Err(IconError::EmptyWord));
}

#[test]
fn group_paths_and_return_addresses() {
    assert_eq!(group_path(12), "/groups/12");
    assert_eq!(group_path(0), "/groups/0");
    assert_eq!(group_path(-5), "/groups/-5");
    assert_eq!(group_path(i64::MIN), "/groups/-9223372036854775808");
    assert_eq!(parse_return_to("/dashboard", 3), Ok(ReturnTo::Dashboard));
    assert_eq!(parse_return_to("/groups/3", 3), Ok(ReturnTo::Group));
    assert_eq!(parse_return_to("/groups/4", 3), Err(ReturnToError::NotAllowed));
    assert_eq!(parse_return_to("https://evil.example", 3), Err(ReturnToError::NotAllowed));
}

#[test]
fn group_views_carry_every_field() {
    let info = || GroupWithInfo {
        id: 3,
        title: "Fitness".to_string(),
        description: Some("move".to_string()),
        tone_name: "Gentle".to_string(),
        tone_stages: vec!["Idea".to_string()],
        greeting: "Hi".to_string(),
        unmet_behavior: GoalBehavior::Nice,
        deadline: DeadlineType::Soft,
        tone_id: 8,
        user_id: 2,
    };
    let display = GroupDisplay::from(info());
    assert_eq!(display.title, "Fitness");
    assert_eq!(display.tone_stages, vec!["Idea".to_string()]);
    assert_eq!(display.deadline, DeadlineType::Soft);
    let group = Group::from(info());
    assert_eq!((group.id, group.tone_id, group.user_id), (3, 8, 2));
    assert_eq!(group.description, Some("move".to_string()));
}
