use ai_write_novel::settings::{list_models, model_or_default, update_env_content};

#[test]
fn env_from_nothing() {
    assert_eq!(update_env_content("", "k1", "m1"), "GEMINI_API_KEY=k1\nAI_MODEL=m1\n");
}

#[test]
fn env_lines_are_rewritten_in_place() {
    let content = "# config\nAI_MODEL=old\nOTHER=1\nGEMINI_API_KEY=old";
    assert_eq!(
        update_env_content(content, "new-key", "new-model"),
        "# config\nAI_MODEL=new-model\nOTHER=1\nGEMINI_API_KEY=new-key\n"
    );
}

#[test]
fn env_missing_lines_are_appended() {
    assert_eq!(update_env_content("OTHER=1\n", "k", "m"), "OTHER=1\nGEMINI_API_KEY=k\nAI_MODEL=m\n");
    assert_eq!(
        update_env_content("GEMINI_API_KEY=a\r\nX=2\r\n", "k", "m"),
        "GEMINI_API_KEY=k\nX=2\nAI_MODEL=m\n"
    );
}

#[test]
fn env_every_matching_line_is_rewritten() {
    assert_eq!(
        update_env_content("AI_MODEL=a\nAI_MODEL=b\n", "k", "m"),
        "AI_MODEL=m\nAI_MODEL=m\nGEMINI_API_KEY=k\n"
    );
}

#[test]
fn env_update_is_idempotent_and_reads_back() {
    let once = update_env_content("A=1\nAI_MODEL=x\n", "key", "model");
    let twice = update_env_content(&once, "key", "model");
    assert_eq!(once, twice);
    let lines: Vec<&str> = once.lines().collect();
    assert!(lines.contains(&"GEMINI_API_KEY=key"));
    assert!(lines.contains(&"AI_MODEL=model"));
}

#[test]
fn default_model() {
    assert_eq!(model_or_default(None), "gemma-4-31b-it");
    assert_eq!(model_or_default(Some("other".to_string())), "other");
}

#[test]
fn available_models() {
    assert_eq!(list_models(), vec!["gemma-4-31b-it".to_string(), "gemma-4-26b-a4b-it".to_string()]);
}

#[test]
fn env_prefixed_lines_with_carriage_returns() {
    let content = "GEMINI_API_KEY=old\r";
    let once = update_env_content(content, "k", "m");
    assert_eq!(once, "GEMINI_API_KEY=k\nAI_MODEL=m\n");
    assert_eq!(update_env_content(&once, "k", "m"), once);
    // A kept line ending in a carriage return loses it on the second pass.
    let once = update_env_content("FOO\r", "k", "m");
    assert_eq!(once, "FOO\r\nGEMINI_API_KEY=k\nAI_MODEL=m\n");
    assert_eq!(update_env_content(&once, "k", "m"), "FOO\nGEMINI_API_KEY=k\nAI_MODEL=m\n");
}
