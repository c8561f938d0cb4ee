use csvview::commands::CommandType;
use csvview::config::{Config, ConfigError};
use csvview::number::parse_count;

fn args_of(words: &[&str]) -> Vec<String> {
    words.iter().map(|w| w.to_string()).collect()
}

#[test]
fn test_help_short() {
    let args = vec!["my_program".to_string(), "-h".to_string()];
    let config = Config::new(&args).unwrap();

    assert_eq!(config.program, "my_program");
    assert_eq!(config.input_file, None);
    assert_eq!(config.command_type, CommandType::Help);
}

#[test]
fn test_help_long() {
    let args = vec!["my_program".to_string(), "--help".to_string()];
    let config = Config::new(&args).unwrap();

    assert_eq!(config.program, "my_program");
    assert_eq!(config.input_file, None);
    assert_eq!(config.command_type, CommandType::Help);
}

#[test]
fn test_help_complete() {
    let args = vec![
        "my_program".to_string(),
        "--help".to_string(),
        "-f".to_string(),
        "10".to_string(),
        "filename".to_string(),
    ];
    let config = Config::new(&args).unwrap();

    assert_eq!(config.program, "my_program");
    assert_eq!(config.input_file.unwrap(), "filename".to_string());
    assert_eq!(config.command_type, CommandType::Help);
}

#[test]
fn test_head_short() {
    let args = vec![
        "my_program".to_string(),
        "-f".to_string(),
        "10".to_string(),
        "filename".to_string(),
    ];
    let config = Config::new(&args).unwrap();

    assert_eq!(config.program, "my_program");
    assert_eq!(config.input_file.unwrap(), "filename".to_string());
    assert_eq!(config.command_type, CommandType::Head);
    assert_eq!(config.num_rows.unwrap(), 10);
}

#[test]
fn test_tail_short() {
    let args = vec![
        "my_program".to_string(),
        "-l".to_string(),
        "10".to_string(),
        "filename".to_string(),
    ];
    let config = Config::new(&args).unwrap();

    assert_eq!(config.program, "my_program");
    assert_eq!(config.input_file.unwrap(), "filename".to_string());
    assert_eq!(config.command_type, CommandType::Tail);
    assert_eq!(config.num_rows.unwrap(), 10);
}

#[test]
fn test_column_name_short() {
    let args = vec![
        "my_program".to_string(),
        "-n".to_string(),
        "column_A".to_string(),
        "filename".to_string(),
    ];
    let config = Config::new(&args).unwrap();

    assert_eq!(config.program, "my_program");
    assert_eq!(config.input_file.unwrap(), "filename".to_string());
    assert_eq!(config.command_type, CommandType::ColumnName);
    assert_eq!(config.column_name.unwrap(), "column_A".to_string());
}

#[test]
fn test_column_name_no_header() {
    let args = vec![
        "my_program".to_string(),
        "-n".to_string(),
        "column_A".to_string(),
        "--no-header".to_string(),
        "filename".to_string(),
    ];
    let result = Config::new(&args);
    assert_eq!(result.unwrap_err(), ConfigError::NameWithoutHeader);
}

#[test]
fn test_column_index_short() {
    let args = vec![
        "my_program".to_string(),
        "-i".to_string(),
        "4".to_string(),
        "filename".to_string(),
    ];
    let config = Config::new(&args).unwrap();

    assert_eq!(config.program, "my_program");
    assert_eq!(config.input_file.unwrap(), "filename".to_string());
    assert_eq!(config.command_type, CommandType::ColumnIndex);
    assert_eq!(config.column_index.unwrap(), 4);
}

#[test]
fn defaults_without_options() {
    let config = Config::new(&args_of(&["prog", "data.csv"])).unwrap();
    assert_eq!(config.command_type, CommandType::Head);
    assert_eq!(config.num_rows, None);
    assert!(config.has_header);
    assert!(!config.pretty);
    assert_eq!(config.separator, b',');
    assert_eq!(config.input_file, Some("data.csv".to_string()));
}

#[test]
fn flags_and_separator() {
    let config =
        Config::new(&args_of(&["prog", "--pretty", "--no-header", "-s", ";", "-l", "3", "f.csv"]))
            .unwrap();
    assert!(config.pretty);
    assert!(!config.has_header);
    assert_eq!(config.separator, b';');
    assert_eq!(config.command_type, CommandType::Tail);
    assert_eq!(config.num_rows, Some(3));
}

#[test]
fn long_option_forms() {
    let config = Config::new(&args_of(&["prog", "--first=7", "--sep", "\t", "f.tsv"])).unwrap();
    assert_eq!(config.command_type, CommandType::Head);
    assert_eq!(config.num_rows, Some(7));
    assert_eq!(config.separator, b'\t');
}

#[test]
fn head_takes_priority_over_tail() {
    let config = Config::new(&args_of(&["prog", "-l", "2", "-f", "5", "f.csv"])).unwrap();
    assert_eq!(config.command_type, CommandType::Head);
    assert_eq!(config.num_rows, Some(5));
}

#[test]
fn empty_argument_list_is_rejected() {
    let args: Vec<String> = Vec::new();
    assert_eq!(Config::new(&args).unwrap_err(), ConfigError::MissingProgram);
}

#[test]
fn unknown_option_is_rejected() {
    let result = Config::new(&args_of(&["prog", "--bogus", "f.csv"]));
    assert_eq!(result.unwrap_err(), ConfigError::InvalidArguments);
}

#[test]
fn missing_option_value_is_rejected() {
    let result = Config::new(&args_of(&["prog", "f.csv", "-f"]));
    assert_eq!(result.unwrap_err(), ConfigError::InvalidArguments);
}

#[test]
fn bad_count_is_rejected() {
    let result = Config::new(&args_of(&["prog", "-f", "ten", "f.csv"]));
    assert_eq!(result.unwrap_err(), ConfigError::InvalidNumber);
    let result = Config::new(&args_of(&["prog", "-i", "-3", "f.csv"]));
    assert_eq!(result.unwrap_err(), ConfigError::InvalidNumber);
}

#[test]
fn empty_separator_is_rejected() {
    let result = Config::new(&args_of(&["prog", "-s", "", "f.csv"]));
    assert_eq!(result.unwrap_err(), ConfigError::EmptySeparator);
}

#[test]
fn usage_text_starts_with_brief() {
    let config = Config::new(&args_of(&["viewer", "-h"])).unwrap();
    let text = config.usage_text();
    assert!(text.starts_with("Usage: viewer [options] FILE"));
    assert!(text.contains("--column-name"));
}

#[test]
fn counts_are_decimal() {
    assert_eq!(parse_count("10"), Some(10));
    assert_eq!(parse_count("+5"), Some(5));
    assert_eq!(parse_count("007"), Some(7));
    assert_eq!(parse_count(""), None);
    assert_eq!(parse_count("+"), None);
    assert_eq!(parse_count("1a"), None);
    assert_eq!(parse_count(" 1"), None);
    assert_eq!(parse_count("-1"), None);
    let max = usize::MAX.to_string();
    assert_eq!(parse_count(&max), Some(usize::MAX));
    let over = format!("{}0", usize::MAX);
    assert_eq!(parse_count(&over), None);
}
