use achat::codegen_status::CodeGenerationStatus;
use achat::codegen_status::CodeGenerationWorkflowStage;
use achat::codegen_status::CodeGenerationWorkflowStatus;
use achat::context_add::AddContextCommand;
use achat::context_add::usize_to_decimal;
use achat::metric::Dimension;
use achat::metric::MetricData;
use achat::metric::ser_metric_data;
use achat::prompt::create_system_prompt;
use aws_smithy_json::serialize::JsonObjectWriter;

#[test]
fn metric_without_dimensions_serializes_exactly() {
    let data = MetricData {
        metric_name: String::from("latency"),
        metric_value: 42,
        timestamp: 1700000000,
        product: String::from("cli"),
        dimensions: None,
    };
    let mut out = String::new();
    let mut object = JsonObjectWriter::new(&mut out);
    let result = ser_metric_data(&mut object, &data);
    assert!(result.is_ok());
    object.finish();
    assert_eq!(
        out,
        "{\"metricName\":\"latency\",\"metricValue\":42,\"timestamp\":1700000000,\"product\":\"cli\"}"
    );
}

#[test]
fn metric_with_dimensions_serializes_array_in_order() {
    let data = MetricData {
        metric_name: String::from("count"),
        metric_value: 7,
        timestamp: 5,
        product: String::from("cli"),
        dimensions: Some(vec![
            Dimension { name: String::from("os"), value: String::from("linux") },
            Dimension { name: String::from("arch"), value: String::from("arm64") },
        ]),
    };
    let mut out = String::new();
    let mut object = JsonObjectWriter::new(&mut out);
    let result = ser_metric_data(&mut object, &data);
    assert!(result.is_ok());
    object.finish();
    assert_eq!(
        out,
        "{\"metricName\":\"count\",\"metricValue\":7,\"timestamp\":5,\"product\":\"cli\",\"dimensions\":[{\"name\":\"os\",\"value\":\"linux\"},{\"name\":\"arch\",\"value\":\"arm64\"}]}"
    );
}

#[test]
fn metric_strings_are_json_escaped() {
    let data = MetricData {
        metric_name: String::from("na\"me"),
        metric_value: 0,
        timestamp: 0,
        product: String::from("p"),
        dimensions: None,
    };
    let mut out = String::new();
    let mut object = JsonObjectWriter::new(&mut out);
    ser_metric_data(&mut object, &data).unwrap();
    object.finish();
    assert_eq!(
        out,
        "{\"metricName\":\"na\\\"me\",\"metricValue\":0,\"timestamp\":0,\"product\":\"p\"}"
    );
}

#[test]
fn builder_with_both_fields_builds() {
    let status = CodeGenerationStatus::builder()
        .status(CodeGenerationWorkflowStatus::InProgress)
        .current_stage(CodeGenerationWorkflowStage::CodeGeneration)
        .build()
        .unwrap();
    assert_eq!(*status.status(), CodeGenerationWorkflowStatus::InProgress);
    assert_eq!(*status.current_stage(), CodeGenerationWorkflowStage::CodeGeneration);
}

#[test]
fn builder_missing_fields_fails() {
    assert!(CodeGenerationStatus::builder().build().is_err());
    assert!(
        CodeGenerationStatus::builder()
            .status(CodeGenerationWorkflowStatus::Complete)
            .build()
            .is_err()
    );
    assert!(
        CodeGenerationStatus::builder()
            .current_stage(CodeGenerationWorkflowStage::Validation)
            .build()
            .is_err()
    );
}

#[test]
fn builder_setters_and_getters_round_trip() {
    let builder = CodeGenerationStatus::builder()
        .set_status(Some(CodeGenerationWorkflowStatus::Failed))
        .set_current_stage(Some(CodeGenerationWorkflowStage::Preparation));
    assert_eq!(*builder.get_status(), Some(CodeGenerationWorkflowStatus::Failed));
    assert_eq!(*builder.get_current_stage(), Some(CodeGenerationWorkflowStage::Preparation));
    let builder = builder.set_status(None);
    assert_eq!(*builder.get_status(), None);
    assert!(builder.build().is_err());
}

#[test]
fn test_add_context_command_no_paths() {
    let command = AddContextCommand::new(false, false, vec![]);
    let result = command.validate();
    assert!(result.is_err());
}

#[test]
fn add_context_validation_message_names_usage() {
    let command = AddContextCommand::new(false, false, vec![]);
    let error = command.validate().unwrap_err();
    assert_eq!(
        error,
        "No paths specified. Usage: /context add [--global] [--force] <path1> [path2...]"
    );
    let command = AddContextCommand::new(true, true, vec!["a.txt"]);
    assert!(command.validate().is_ok());
}

#[test]
fn add_context_success_message_counts_paths_and_scope() {
    let command = AddContextCommand::new(false, false, vec!["a", "b", "c"]);
    assert_eq!(command.success_message(), "Added 3 file(s) to profile context\n");
    let command = AddContextCommand::new(true, false, vec!["a"]);
    assert_eq!(command.success_message(), "Added 1 file(s) to global context\n");
}

#[test]
fn add_context_descriptions() {
    let command = AddContextCommand::new(false, false, vec!["a"]);
    assert_eq!(command.name(), "add");
    assert_eq!(command.description(), "Add file(s) to context");
    assert_eq!(command.usage(), "/context add [--global] [--force] <path1> [path2...]");
    assert!(command.help().starts_with("Add files to the context."));
    assert!(!command.requires_confirmation(&vec![]));
}

#[test]
fn decimal_formatting_matches_expected() {
    assert_eq!(usize_to_decimal(0), "0");
    assert_eq!(usize_to_decimal(7), "7");
    assert_eq!(usize_to_decimal(10), "10");
    assert_eq!(usize_to_decimal(42), "42");
    assert_eq!(usize_to_decimal(90210), "90210");
    assert_eq!(usize_to_decimal(usize::MAX), format!("{}", usize::MAX));
}

#[test]
fn system_prompt_embeds_environment() {
    let prompt = create_system_prompt("/home/me/project", "linux");
    assert!(prompt.starts_with("You are an expert programmer and CLI chat assistant."));
    assert!(prompt.ends_with(
        "Context about the user's environment is provided below:\n- Current working directory: /home/me/project\n- Operating system: linux\n"
    ));
}
