use crab::extract::extract_command;

#[test]
fn reply_without_marker_is_final_answer() {
    assert_eq!(extract_command("The answer is 42."), None);
    assert_eq!(extract_command(""), None);
}

#[test]
fn single_block_is_extracted_verbatim() {
    assert_eq!(
        extract_command("Let me look.\n<command>ls -la /tmp</command>\nThen I'll tell you."),
        Some("ls -la /tmp".to_string())
    );
}

#[test]
fn body_is_not_trimmed() {
    assert_eq!(
        extract_command("<command>  echo hi\n</command>"),
        Some("  echo hi\n".to_string())
    );
}

#[test]
fn first_of_several_blocks_wins() {
    assert_eq!(
        extract_command("<command>first</command> and <command>second</command>"),
        Some("first".to_string())
    );
}

#[test]
fn empty_block_is_final_answer() {
    assert_eq!(extract_command("<command></command>"), None);
    assert_eq!(extract_command("<command></command><command>ls</command>"), None);
}

#[test]
fn unclosed_block_is_final_answer() {
    assert_eq!(extract_command("<command>ls -la"), None);
    assert_eq!(extract_command("</command>ls<command>"), None);
}

#[test]
fn non_ascii_text_around_block() {
    assert_eq!(
        extract_command("héllo <command>cat ünïcode.txt</command> ✓"),
        Some("cat ünïcode.txt".to_string())
    );
}
