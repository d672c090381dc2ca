use rusty_cdk::text::{join, replace_all, split_str, trim};

fn strings(v: &[&str]) -> Vec<String> {
    v.iter().map(|s| s.to_string()).collect()
}

#[test]
fn splitting_on_a_separator_keeps_empty_pieces() {
    assert_eq!(split_str("a===b===", "==="), strings(&["a", "b", ""]));
    assert_eq!(split_str("", ";"), strings(&[""]));
    assert_eq!(split_str("AWS::S3::Bucket", "::"), strings(&["AWS", "S3", "Bucket"]));
}

#[test]
fn joining_puts_the_separator_between_pieces() {
    assert_eq!(join(&strings(&["a", "b", "c"]), ", "), "a, b, c");
    assert_eq!(join(&Vec::new(), ", "), "");
}

#[test]
fn replacing_and_trimming() {
    assert_eq!(replace_all("./a/./b", "./", ""), "a/b");
    assert_eq!(trim("  Required: No \n"), "Required: No");
}
