use how::sanitize::{sanitize, str_has_prefix, str_has_suffix, trim_str};

#[test]
fn fence_stripping_exactness() {
    let r = sanitize("  ```bash\nrm -rf /tmp/x\n```  ");
    assert_eq!(r, "rm -rf /tmp/x");
}

#[test]
fn plain_command_unchanged() {
    assert_eq!(sanitize("ls -la"), "ls -la");
}

#[test]
fn empty_input_stays_empty() {
    assert_eq!(sanitize(""), "");
}

#[test]
fn whitespace_only_becomes_empty() {
    assert_eq!(sanitize("  \t\n  "), "");
}

#[test]
fn sh_fence_stripped() {
    assert_eq!(sanitize("```sh\necho hi\n```"), "echo hi");
}

#[test]
fn bare_fence_stripped() {
    assert_eq!(sanitize("```\ndu -sh .\n```"), "du -sh .");
}

#[test]
fn leading_fence_only() {
    assert_eq!(sanitize("```bash cat x"), "cat x");
}

#[test]
fn trailing_fence_only() {
    assert_eq!(sanitize("cat x```"), "cat x");
}

#[test]
fn one_leading_marker_removed_per_pass() {
    // Six backticks: one pass strips only the outermost bare fence.
    assert_eq!(sanitize("``````bash x"), "```bash x");
}

#[test]
fn fences_only_become_empty() {
    assert_eq!(sanitize("``````"), "");
    assert_eq!(sanitize("```"), "");
}

#[test]
fn idempotent_on_fenced_command() {
    let t = "  ```bash\nrm -rf /tmp/x\n```  ";
    let once = sanitize(t);
    let twice = sanitize(&once);
    assert_eq!(twice, once);
}

#[test]
fn idempotent_on_plain_text() {
    for t in ["ls -la", "", "  spaced out  ", "```\nx\n```", "echo ```"] {
        let once = sanitize(t);
        let twice = sanitize(&once);
        assert_eq!(twice, once, "input {:?}", t);
    }
}

#[test]
fn unicode_whitespace_trimmed() {
    assert_eq!(sanitize("\u{a0}\u{3000}pwd\u{2028} "), "pwd");
}

#[test]
fn trim_str_both_ends() {
    assert_eq!(trim_str("  cd /  "), "cd /");
    assert_eq!(trim_str("cd /"), "cd /");
    assert_eq!(trim_str(""), "");
}

#[test]
fn prefix_and_suffix_checks() {
    assert!(str_has_prefix("```bash x", "```bash"));
    assert!(!str_has_prefix("``bash x", "```bash"));
    assert!(str_has_prefix("anything", ""));
    assert!(str_has_suffix("x```", "```"));
    assert!(!str_has_suffix("x``", "```"));
    assert!(!str_has_suffix("``", "```"));
}
