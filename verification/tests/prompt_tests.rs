use how::errors::PipelineError;
use how::prompt::build_prompt;
use how::request::build_request;

#[test]
fn prompt_wraps_request_in_template() {
    let p = build_prompt("show disk usage");
    let expected = "<|im_start|>system\nYou are a command line tool. Output ONLY the raw shell command. Do not use markdown code blocks.<|im_end|>\n<|im_start|>user\nlist all files in detail\n<|im_end|>\n<|im_start|>assistant\nls -la\n<|im_end|>\n<|im_start|>user\nshow disk usage<|im_end|>\n<|im_start|>assistant\n";
    assert_eq!(p, expected);
}

#[test]
fn prompt_contains_exactly_one_exemplar() {
    let p = build_prompt("count words");
    assert_eq!(p.matches("list all files in detail").count(), 1);
    assert_eq!(p.matches("ls -la").count(), 1);
    assert!(p.ends_with("<|im_start|>assistant\n"));
}

#[test]
fn empty_args_build_no_request() {
    let words: Vec<String> = Vec::new();
    assert_eq!(build_request(&words), None);
}

#[test]
fn single_word_request() {
    let words = vec![String::from("ls")];
    assert_eq!(build_request(&words).as_deref(), Some("ls"));
}

#[test]
fn words_joined_with_single_spaces() {
    let words = vec![
        String::from("list"),
        String::from("all"),
        String::from("files"),
        String::from("in"),
        String::from("detail"),
    ];
    assert_eq!(build_request(&words).as_deref(), Some("list all files in detail"));
}

#[test]
fn only_prompt_too_long_is_soft() {
    let kinds = [
        PipelineError::CacheDirUnavailable,
        PipelineError::ModelExtractionIo,
        PipelineError::EngineInit,
        PipelineError::ModelLoad,
        PipelineError::SessionCreation,
        PipelineError::PromptTooLong,
        PipelineError::Tokenization,
        PipelineError::Decode,
        PipelineError::Detokenization,
    ];
    for k in kinds {
        assert_eq!(k.is_fatal(), k != PipelineError::PromptTooLong);
    }
}

#[test]
fn prompt_too_long_description() {
    assert_eq!(PipelineError::PromptTooLong.describe(), "Prompt too long.");
    assert_eq!(
        PipelineError::CacheDirUnavailable.describe(),
        "Unable to determine cache directory"
    );
    assert_eq!(PipelineError::Decode.describe(), "Decoding failed");
}
