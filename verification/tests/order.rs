use multiclaw::order::{sort_strings, str_le};
use multiclaw::skill_pack::SkillIndexTool;

#[test]
fn text_order_is_code_point_order() {
    assert!(str_le("", "a"));
    assert!(str_le("ab", "abc"));
    assert!(!str_le("abc", "ab"));
    assert!(str_le("B", "a"));
    assert!(str_le("same", "same"));
    assert!(str_le("z", "é"));
}

#[test]
fn sort_strings_matches_std_sort() {
    let input: Vec<String> = vec!["pear", "apple", "Zebra", "apple", "éclair", "app", ""]
        .into_iter()
        .map(String::from)
        .collect();
    let mut expected = input.clone();
    expected.sort();
    assert_eq!(sort_strings(input), expected);
    assert_eq!(sort_strings(Vec::new()), Vec::<String>::new());
}

#[test]
fn skill_index_lines_sorted() {
    let names = vec!["writer".to_string(), "analyst".to_string()];
    let lines = SkillIndexTool::list_dir_skills(&names, "shared");
    assert_eq!(lines, vec!["analyst (shared)", "writer (shared)"]);
}

#[test]
fn skill_index_output() {
    let tool = SkillIndexTool::new("/w".to_string(), "/shared".to_string());
    let empty = tool.execute(&Vec::new());
    assert!(empty.success);
    assert_eq!(
        empty.output,
        "No skill packages found under workspace/skills or shared skills dir."
    );
    let r = tool.execute(&vec!["a (instance)".to_string(), "b (shared)".to_string()]);
    assert_eq!(r.output, "a (instance)\nb (shared)");
    let srcs = tool.sources();
    assert_eq!(srcs[0].0, "/w/skills");
    assert_eq!(srcs[0].1, "instance");
    assert_eq!(srcs[1].0, "/shared");
}
