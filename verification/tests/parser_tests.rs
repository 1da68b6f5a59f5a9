use merel::parser::{PipelineParser, PipelineParserError};
use merel::pipeline::{ContainerMethod, Pipeline};

#[test]
fn parse_method_should_succeed() {
    let possible_configs = [
        "docker{}",
        "docker  {}",
        "docker{  }",
        "docker    {}",
        "docker   {     }",
    ];

    for possible_config in possible_configs {
        let pipeline_parser = PipelineParser::new(possible_config);

        let pipeline = pipeline_parser.parse().unwrap();
        assert_eq!(
            pipeline,
            Pipeline {
                container_method: ContainerMethod::Docker,
                jobs: vec![],
                trigger_branches: vec!["main".to_string()],
            }
        )
    }
}

#[test]
fn parse_method_without_braces_succeeds() {
    let parser = PipelineParser::new("docker");
    let pipeline = parser.parse().unwrap();
    assert_eq!(pipeline.container_method, ContainerMethod::Docker);
    assert!(pipeline.jobs.is_empty());
}

#[test]
fn parse_unknown_method_fails() {
    let parser = PipelineParser::new("podman{}");
    let err = parser.parse().unwrap_err();
    assert_eq!(
        err,
        PipelineParserError::UnavailableContainerMethod("podman".to_string())
    );
}

#[test]
fn parse_method_is_case_sensitive() {
    let parser = PipelineParser::new("Docker{}");
    let err = parser.parse().unwrap_err();
    assert_eq!(
        err,
        PipelineParserError::UnavailableContainerMethod("Docker".to_string())
    );
}

#[test]
fn parse_skips_whitespace_before_method() {
    let parser = PipelineParser::new("  \r\n docker {}");
    let pipeline = parser.parse().unwrap();
    assert_eq!(pipeline.container_method, ContainerMethod::Docker);
}

#[test]
fn parse_empty_input_fails() {
    let parser = PipelineParser::new("");
    let err = parser.parse().unwrap_err();
    assert_eq!(
        err,
        PipelineParserError::UnavailableContainerMethod(String::new())
    );
}

#[test]
fn parser_error_message_names_the_method() {
    let parser = PipelineParser::new("podman{}");
    let err = parser.parse().unwrap_err();
    assert_eq!(err.message(), "Container method podman is not supported.");
}
