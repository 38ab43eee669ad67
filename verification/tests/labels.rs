use fun_lights::label::{contains_duplicate, find_label, ShaderLabel};

#[test]
fn find_label_gives_first_occurrence() {
    let labels = vec![ShaderLabel::new("a"), ShaderLabel::new("b"), ShaderLabel::new("a")];
    assert_eq!(find_label(&labels, &ShaderLabel::new("a")), Some(0));
    assert_eq!(find_label(&labels, &ShaderLabel::new("b")), Some(1));
    assert_eq!(find_label(&labels, &ShaderLabel::new("c")), None);
}

#[test]
fn contains_duplicate_sees_repeated_label() {
    let labels = vec![ShaderLabel::new("a"), ShaderLabel::new("b"), ShaderLabel::new("a")];
    assert!(contains_duplicate(&labels));
    let distinct = vec![ShaderLabel::new("a"), ShaderLabel::new("b")];
    assert!(!contains_duplicate(&distinct));
    assert!(!contains_duplicate(&Vec::new()));
}
