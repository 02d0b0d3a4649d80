use csharp_toolchain::extract::extract_properties;
use csharp_toolchain::extract::msbuild_args;
use csharp_toolchain::extract::parse_msbuild_property_output;

#[test]
fn parse_equals() {
    let out = "OutputType = Exe\n";
    assert_eq!(
        parse_msbuild_property_output(out, "OutputType"),
        Some("Exe".to_string())
    );
}

#[test]
fn parse_colon() {
    let out = "OutputType: Exe\n";
    assert_eq!(
        parse_msbuild_property_output(out, "OutputType"),
        Some("Exe".to_string())
    );
}

#[test]
fn parse_value_only() {
    let out = "Exe\n";
    assert_eq!(
        parse_msbuild_property_output(out, "OutputType"),
        Some("Exe".to_string())
    );
}

#[test]
fn parse_whitespace_value_only() {
    let out = "   Exe   \n";
    assert_eq!(
        parse_msbuild_property_output(out, "OutputType"),
        Some("Exe".to_string())
    );
}

#[test]
fn parse_case_insensitive() {
    let out = "Property OutputType: Exe\n";
    assert_eq!(
        parse_msbuild_property_output(out, "outputtype"),
        Some("Exe".to_string())
    );
}

#[test]
fn parse_absent_property_returns_none() {
    let out = "Some noise\n";
    assert_eq!(parse_msbuild_property_output(out, "OutputType"), None);
}

#[test]
fn parse_json_properties() {
    let out = r#"{
  "Properties": {
    "IsTestProject": "",
    "OutputType": "Exe"
  }
}"#;
    assert_eq!(
        parse_msbuild_property_output(out, "OutputType"),
        Some("Exe".to_string())
    );
    assert_eq!(
        parse_msbuild_property_output(out, "IsTestProject"),
        Some("".to_string())
    );
}

#[test]
fn parse_is_test_project_true() {
    let out = "IsTestProject = true\n";
    assert_eq!(
        parse_msbuild_property_output(out, "IsTestProject"),
        Some("true".to_string())
    );
}

#[test]
fn parse_json_non_string_value_is_serialized() {
    let out = r#"{"Properties":{"TargetFrameworkCount":2}}"#;
    assert_eq!(
        parse_msbuild_property_output(out, "TargetFrameworkCount"),
        Some("2".to_string())
    );
}

#[test]
fn parse_json_without_property_falls_back_to_lines() {
    // The document parses as JSON but lacks the property, so the line
    // scan runs and sees the property name inside the raw text.
    let out = "{\"Properties\":{\"Other\":\"1\"}}\nOutputType = Library\n";
    assert_eq!(
        parse_msbuild_property_output(out, "OutputType"),
        Some("Library".to_string())
    );
}

#[test]
fn parse_inline_json_line_is_sanitized() {
    let out = "garbage before\n  \"OutputType\": \"Exe\",\n";
    assert_eq!(
        parse_msbuild_property_output(out, "OutputType"),
        Some("Exe".to_string())
    );
}

#[test]
fn parse_token_following_property_name() {
    let out = "OutputType Exe\n";
    assert_eq!(
        parse_msbuild_property_output(out, "OutputType"),
        Some("Exe".to_string())
    );
}

#[test]
fn parse_matching_line_without_separator_or_token() {
    // One token only, so the whole sanitized line comes back.
    let out = "noise\nOutputTypeExe\n";
    assert_eq!(
        parse_msbuild_property_output(out, "OutputType"),
        Some("OutputTypeExe".to_string())
    );
}

#[test]
fn parse_first_matching_line_wins() {
    let out = "OutputType = Exe\nOutputType = Library\n";
    assert_eq!(
        parse_msbuild_property_output(out, "OutputType"),
        Some("Exe".to_string())
    );
}

#[test]
fn parse_multi_line_output_is_not_a_bare_token() {
    let out = "alpha\nbeta\n";
    assert_eq!(parse_msbuild_property_output(out, "OutputType"), None);
}

#[test]
fn parse_multi_token_single_line_is_not_a_bare_token() {
    let out = "two words\n";
    assert_eq!(parse_msbuild_property_output(out, "OutputType"), None);
}

#[test]
fn parse_empty_output_returns_none() {
    assert_eq!(parse_msbuild_property_output("", "OutputType"), None);
}

#[test]
fn parse_value_with_quotes_and_trailing_comma() {
    let out = "OutputType = \"WinExe\",\n";
    assert_eq!(
        parse_msbuild_property_output(out, "OutputType"),
        Some("WinExe".to_string())
    );
}

#[test]
fn extract_properties_collects_found_pairs_in_order() {
    let out = "OutputType = Exe\nIsTestProject = true\n";
    let props = vec![
        "OutputType".to_string(),
        "Missing".to_string(),
        "IsTestProject".to_string(),
    ];
    let pairs = extract_properties(out, &props);
    assert_eq!(
        pairs,
        vec![
            ("OutputType".to_string(), "Exe".to_string()),
            ("IsTestProject".to_string(), "true".to_string()),
        ]
    );
}

#[test]
fn msbuild_args_shape() {
    let props = vec!["OutputType".to_string(), "IsTestProject".to_string()];
    let args = msbuild_args(&"/tmp/app.csproj".to_string(), &props);
    assert_eq!(
        args,
        vec![
            "msbuild".to_string(),
            "/tmp/app.csproj".to_string(),
            "/nologo".to_string(),
            "/v:q".to_string(),
            "/getProperty:OutputType".to_string(),
            "/getProperty:IsTestProject".to_string(),
        ]
    );
}
