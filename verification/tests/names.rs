use vibe_git::names::{
    folder_name_of, get_all_english_names, get_random_color, pick_color, pick_english_name,
    random_english_name, to_legal_folder_name,
};

#[test]
fn test_random_english_name() {
    let name = random_english_name(None);
    assert!(!name.en.is_empty());
    assert!(!name.zh.is_empty());
}

#[test]
fn test_random_english_name_with_gender() {
    let male_name = random_english_name(Some("男"));
    assert_eq!(male_name.gender, "男");

    let female_name = random_english_name(Some("女"));
    assert_eq!(female_name.gender, "女");
}

#[test]
fn test_to_legal_folder_name() {
    assert_eq!(to_legal_folder_name("My Project 123!"), "my-project-123");
    assert_eq!(to_legal_folder_name("AI Agent 🤖"), "ai-agent");
}

#[test]
fn test_get_random_color() {
    let color = get_random_color();
    assert!(color.starts_with('#'));
}

#[test]
fn all_names_are_listed_males_first() {
    let names = get_all_english_names();
    assert_eq!(names.len(), 58);
    assert_eq!(names[0].en, "Oliver");
    assert_eq!(names[0].zh, "奥利佛");
    assert_eq!(names[27].en, "Luke");
    assert_eq!(names[28].en, "Sophia");
    assert_eq!(names[57].en, "Cedar");
    assert!(names[..28].iter().all(|n| n.gender == "男"));
    assert!(names[28..].iter().all(|n| n.gender == "女"));
}

#[test]
fn a_seed_picks_the_name_at_its_place() {
    assert_eq!(pick_english_name(None, 0).en, "Oliver");
    assert_eq!(pick_english_name(None, 58).en, "Oliver");
    assert_eq!(pick_english_name(None, 59).en, "James");
    assert_eq!(pick_english_name(Some("女"), 0).en, "Sophia");
    assert_eq!(pick_english_name(Some("女"), 30).en, "Sophia");
    assert_eq!(pick_english_name(Some("男"), 27).en, "Luke");
    assert_eq!(pick_english_name(Some("other"), 28).en, "Sophia");
}

#[test]
fn a_seed_picks_the_colour_at_its_place() {
    assert_eq!(pick_color(0), "#FF6B6B");
    assert_eq!(pick_color(9), "#85C1E9");
    assert_eq!(pick_color(13), "#96CEB4");
}

#[test]
fn folder_names_collapse_hyphens_before_dropping_other_scripts() {
    assert_eq!(folder_name_of("a  b"), "a-b");
    assert_eq!(folder_name_of("--a/b:c--"), "abc");
    assert_eq!(folder_name_of("a-é-b"), "a--b");
    assert_eq!(folder_name_of("???"), "");
    assert_eq!(to_legal_folder_name("HELLO World"), "hello-world");
}
