use ghostwriter_lib::instructions::{accept_instruction, default_instruction, InstructionError};

#[test]
fn test_default_instruction_content() {
    let content = default_instruction();
    assert!(!content.is_empty());
    assert!(content.to_lowercase().contains("improve"));
    assert!(content.to_lowercase().contains("text"));
}

#[test]
fn test_error_display_messages() {
    let err = InstructionError::FileNotFound("/tmp/test.md".to_string());
    assert_eq!(err.to_string(), "Instruction file not found: /tmp/test.md");

    let err = InstructionError::EmptyFile("/tmp/empty.md".to_string());
    assert_eq!(err.to_string(), "Instruction file is empty: /tmp/empty.md");
}

#[test]
fn accept_valid_content() {
    let r = accept_instruction("/tmp/test.md", "Fix grammar and spelling.".to_string());
    assert_eq!(r.unwrap(), "Fix grammar and spelling.");
}

#[test]
fn accept_blank_content_is_empty_file() {
    for content in ["", "   \n  \t  "] {
        match accept_instruction("/tmp/x.md", content.to_string()) {
            Err(InstructionError::EmptyFile(p)) => assert_eq!(p, "/tmp/x.md"),
            _ => panic!("Expected EmptyFile"),
        }
    }
}
