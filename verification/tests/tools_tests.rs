use trickery::provider::Tool;
use trickery::tools::current_time::{
    plan, read_arguments, render, signed_decimal, time_format, Clock, CurrentTimeArgs,
    CurrentTimeTool, Moment, TimeFormat,
};
use trickery::tools::{function_tool, ToolError, ToolExecutor, ToolRegistry};

struct Named {
    name: &'static str,
    description: &'static str,
    reply: &'static str,
}

impl ToolExecutor for Named {
    fn name(&self) -> &'static str {
        self.name
    }

    fn definition(&self) -> Tool {
        function_tool(self.name, self.description, serde_json::Value::Bool(true))
    }

    fn execute(&self, arguments: &str) -> Result<String, ToolError> {
        if arguments == "bad" {
            Err(ToolError::InvalidArguments("bad arguments".to_string()))
        } else if arguments == "boom" {
            Err(ToolError::ExecutionFailed("boom".to_string()))
        } else {
            Ok(format!("{}:{}", self.reply, arguments))
        }
    }
}

struct Fixed {
    schema: serde_json::Value,
}

impl ToolExecutor for Fixed {
    fn name(&self) -> &'static str {
        "fixed"
    }

    fn definition(&self) -> Tool {
        function_tool("fixed", "A fixed tool", self.schema.clone())
    }

    fn execute(&self, _arguments: &str) -> Result<String, ToolError> {
        Ok(String::new())
    }
}

fn named(name: &'static str, description: &'static str, reply: &'static str) -> Named {
    Named { name, description, reply }
}

#[test]
fn test_tool_name() {
    let tool = CurrentTimeTool;
    assert_eq!(tool.name(), "current_time");
}

#[test]
fn test_tool_definition() {
    let tool = CurrentTimeTool;
    let def = tool.definition();
    assert_eq!(def.tool_type, "function");
    assert_eq!(def.function.name, "current_time");
    assert!(def.function.description.contains("current date and time"));
}

#[test]
fn current_time_schema_is_the_documented_object() {
    let def = CurrentTimeTool.definition();
    let schema = &def.function.parameters;
    assert!(schema.is_object());
    assert_eq!(schema["type"], serde_json::Value::String("object".to_string()));
    assert_eq!(schema["additionalProperties"], serde_json::Value::Bool(false));
    assert_eq!(schema["properties"]["timezone"]["default"], serde_json::Value::String("local".to_string()));
    assert_eq!(schema["properties"]["format"]["enum"][3], serde_json::Value::String("human".to_string()));
}

#[test]
fn test_execute_default() {
    let tool = CurrentTimeTool;
    let result = tool.execute("{}").unwrap();
    // Should return ISO8601 format
    assert!(result.contains("T"));
    assert!(result.contains(":"));
}

#[test]
fn test_execute_empty_args() {
    let tool = CurrentTimeTool;
    let result = tool.execute("").unwrap();
    assert!(result.contains("T"));
}

#[test]
fn test_execute_utc() {
    let tool = CurrentTimeTool;
    let result = tool.execute(r#"{"timezone": "utc"}"#).unwrap();
    assert!(result.contains("+00:00") || result.contains("Z"));
}

#[test]
fn test_execute_unix_format() {
    let tool = CurrentTimeTool;
    let result = tool.execute(r#"{"format": "unix"}"#).unwrap();
    // Unix timestamp should be a number
    assert!(result.parse::<i64>().is_ok());
}

#[test]
fn test_execute_rfc2822_format() {
    let tool = CurrentTimeTool;
    let result = tool.execute(r#"{"format": "rfc2822"}"#).unwrap();
    // RFC2822 format includes day name
    assert!(
        result.contains("Mon")
            || result.contains("Tue")
            || result.contains("Wed")
            || result.contains("Thu")
            || result.contains("Fri")
            || result.contains("Sat")
            || result.contains("Sun")
    );
}

#[test]
fn test_execute_human_format() {
    let tool = CurrentTimeTool;
    let result = tool.execute(r#"{"format": "human"}"#).unwrap();
    // Human format includes month name and AM/PM
    assert!(result.contains("AM") || result.contains("PM"));
}

#[test]
fn test_execute_human_utc() {
    let tool = CurrentTimeTool;
    let result = tool
        .execute(r#"{"timezone": "utc", "format": "human"}"#)
        .unwrap();
    assert!(result.contains("UTC"));
}

#[test]
fn test_execute_invalid_json() {
    let tool = CurrentTimeTool;
    let result = tool.execute("not json");
    assert!(matches!(result, Err(ToolError::InvalidArguments(_))));
}

#[test]
fn current_time_arguments_are_read_field_by_field() {
    let args = read_arguments("   ").unwrap();
    assert!(args.timezone.is_none() && args.format.is_none());
    let args = read_arguments("{}").unwrap();
    assert!(args.timezone.is_none() && args.format.is_none());
    let args = read_arguments(r#"{"timezone": "utc", "format": null, "extra": 1}"#).unwrap();
    assert_eq!(args.timezone, Some("utc".to_string()));
    assert_eq!(args.format, None);
    let args = read_arguments(r#"{"format": "unix"}"#).unwrap();
    assert_eq!(args.timezone, None);
    assert_eq!(args.format, Some("unix".to_string()));
    assert!(matches!(read_arguments(r#"{"format": 5}"#), Err(ToolError::InvalidArguments(_))));
    assert!(matches!(read_arguments("42"), Err(ToolError::InvalidArguments(_))));
    assert!(matches!(read_arguments("{"), Err(ToolError::InvalidArguments(_))));
}

#[test]
fn test_registry_new() {
    let registry = ToolRegistry::<CurrentTimeTool>::new();
    assert!(registry.available_tools().is_empty());
}

#[test]
fn test_registry_with_builtins() {
    let registry = ToolRegistry::with_builtins();
    assert!(registry.get("current_time").is_some());
}

#[test]
fn test_registry_definitions() {
    let registry = ToolRegistry::with_builtins();
    let defs = registry.definitions();
    assert!(!defs.is_empty());
    assert!(defs.iter().any(|d| d.function.name == "current_time"));
}

#[test]
fn test_registry_definitions_for() {
    let registry = ToolRegistry::with_builtins();
    let defs = registry.definitions_for(&["current_time".to_string()]);
    assert_eq!(defs.len(), 1);
    assert_eq!(defs[0].function.name, "current_time");
}

#[test]
fn test_registry_definitions_for_unknown() {
    let registry = ToolRegistry::with_builtins();
    let defs = registry.definitions_for(&["unknown_tool".to_string()]);
    assert!(defs.is_empty());
}

#[test]
fn test_execute_not_found() {
    let registry = ToolRegistry::<CurrentTimeTool>::new();
    let result = registry.execute("unknown", "{}");
    assert!(matches!(result, Err(ToolError::NotFound(_))));
}

#[test]
fn a_missing_tool_is_not_found_whatever_else_is_registered() {
    let mut registry = ToolRegistry::new();
    match registry.execute("missing_tool", "{}") {
        Err(ToolError::NotFound(name)) => assert_eq!(name, "missing_tool"),
        _ => panic!("expected NotFound"),
    }
    registry.register(named("a", "first", "A"));
    registry.register(named("b", "second", "B"));
    match registry.execute("missing_tool", "{}") {
        Err(ToolError::NotFound(name)) => assert_eq!(name, "missing_tool"),
        _ => panic!("expected NotFound"),
    }
    assert!(registry.get("missing_tool").is_none());
}

#[test]
fn definitions_for_drops_unknown_names() {
    let mut registry = ToolRegistry::new();
    registry.register(named("a", "first", "A"));
    let defs = registry.definitions_for(&["a".to_string(), "unknown".to_string()]);
    assert_eq!(defs.len(), 1);
    assert_eq!(defs[0].function.name, "a");
}

#[test]
fn definitions_for_follows_the_order_of_the_request() {
    let mut registry = ToolRegistry::new();
    registry.register(named("a", "first", "A"));
    registry.register(named("b", "second", "B"));
    registry.register(named("c", "third", "C"));
    let defs = registry.definitions_for(&["c".to_string(), "x".to_string(), "a".to_string(), "c".to_string()]);
    let names: Vec<&str> = defs.iter().map(|d| d.function.name.as_str()).collect();
    assert_eq!(names, vec!["c", "a", "c"]);
    let all: Vec<String> = registry.definitions().into_iter().map(|d| d.function.name).collect();
    assert_eq!(all, vec!["a", "b", "c"]);
    assert_eq!(registry.available_tools(), vec!["a", "b", "c"]);
}

#[test]
fn a_definition_comes_back_unchanged_after_register() {
    let mut schema = serde_json::Map::new();
    schema.insert("type".to_string(), serde_json::Value::String("object".to_string()));
    let schema = serde_json::Value::Object(schema);

    let mut registry = ToolRegistry::new();
    registry.register(Fixed { schema: schema.clone() });
    let defs = registry.definitions();
    assert_eq!(defs.len(), 1);
    assert_eq!(defs[0].tool_type, "function");
    assert_eq!(defs[0].function.name, "fixed");
    assert_eq!(defs[0].function.description, "A fixed tool");
    assert_eq!(defs[0].function.parameters, schema);
}

#[test]
fn the_last_registration_of_a_name_wins_and_keeps_its_place() {
    let mut registry = ToolRegistry::new();
    registry.register(named("a", "old", "A1"));
    registry.register(named("b", "second", "B"));
    registry.register(named("a", "new", "A2"));
    assert_eq!(registry.available_tools(), vec!["a", "b"]);
    let defs = registry.definitions();
    assert_eq!(defs.len(), 2);
    assert_eq!(defs[0].function.description, "new");
    assert_eq!(registry.execute("a", "x").unwrap(), "A2:x");
    assert_eq!(registry.get("a").unwrap().reply, "A2");
    assert_eq!(registry.execute("b", "y").unwrap(), "B:y");
}

#[test]
fn a_tool_s_own_failures_are_handed_on() {
    let mut registry = ToolRegistry::new();
    registry.register(named("a", "first", "A"));
    assert!(matches!(registry.execute("a", "bad"), Err(ToolError::InvalidArguments(_))));
    match registry.execute("a", "boom") {
        Err(ToolError::ExecutionFailed(detail)) => assert_eq!(detail, "boom"),
        _ => panic!("expected ExecutionFailed"),
    }
}

#[test]
fn test_function_tool_helper() {
    let mut schema = serde_json::Map::new();
    schema.insert("type".to_string(), serde_json::Value::String("object".to_string()));
    let tool = function_tool("test", "Test tool", serde_json::Value::Object(schema));
    assert_eq!(tool.tool_type, "function");
    assert_eq!(tool.function.name, "test");
    assert_eq!(tool.function.description, "Test tool");
}

#[test]
fn current_time_schema_describes_its_formats_in_full() {
    let def = CurrentTimeTool.definition();
    let schema = &def.function.parameters;
    assert_eq!(
        schema["properties"]["format"]["description"],
        serde_json::Value::String(
            "Output format: 'iso8601' (2024-01-15T10:30:00), 'rfc2822' (Mon, 15 Jan 2024 10:30:00 +0000), 'unix' (timestamp in seconds), 'human' (January 15, 2024 10:30 AM)"
                .to_string()
        )
    );
    assert_eq!(
        schema["properties"]["timezone"]["description"],
        serde_json::Value::String("Timezone to use: 'utc' for UTC or 'local' for system local time".to_string())
    );
    assert_eq!(schema["properties"]["timezone"]["enum"][0], serde_json::Value::String("utc".to_string()));
    assert_eq!(schema["properties"]["format"]["default"], serde_json::Value::String("iso8601".to_string()));
}

#[test]
fn a_registry_of_boxed_tools_holds_tools_of_different_kinds() {
    let mut registry: ToolRegistry<Box<dyn ToolExecutor>> = ToolRegistry::new();
    registry.register(Box::new(CurrentTimeTool));
    registry.register(Box::new(named("a", "first", "A")));
    assert_eq!(registry.available_tools(), vec!["current_time", "a"]);
    assert_eq!(registry.definitions().len(), 2);
    assert_eq!(registry.execute("a", "x").unwrap(), "A:x");
    assert!(registry.execute("current_time", "{}").unwrap().contains("T"));
    assert!(matches!(registry.execute("b", "{}"), Err(ToolError::NotFound(_))));
    assert_eq!(registry.get("a").unwrap().name(), "a");
}

#[test]
fn the_time_tool_plans_by_its_settings() {
    assert_eq!(time_format("rfc2822"), TimeFormat::Rfc2822);
    assert_eq!(time_format("unix"), TimeFormat::Unix);
    assert_eq!(time_format("human"), TimeFormat::Human);
    assert_eq!(time_format("iso8601"), TimeFormat::Iso8601);
    assert_eq!(time_format("UNIX"), TimeFormat::Iso8601);
    assert_eq!(time_format(""), TimeFormat::Iso8601);
    let args = |timezone: Option<&str>, format: Option<&str>| CurrentTimeArgs {
        timezone: timezone.map(|s| s.to_string()),
        format: format.map(|s| s.to_string()),
    };
    assert_eq!(plan(&args(None, None)), (Clock::Local, TimeFormat::Iso8601));
    assert_eq!(plan(&args(Some("utc"), Some("unix"))), (Clock::Utc, TimeFormat::Unix));
    assert_eq!(plan(&args(Some("local"), Some("human"))), (Clock::Local, TimeFormat::Human));
    assert_eq!(plan(&args(Some("UTC"), Some("rfc2822"))), (Clock::Local, TimeFormat::Rfc2822));
    assert_eq!(plan(&args(Some("mars"), Some("other"))), (Clock::Local, TimeFormat::Iso8601));
}

#[test]
fn the_time_tool_tells_utc_and_local_time_in_each_format() {
    let tool = CurrentTimeTool;
    let unix = tool.execute(r#"{"timezone": "utc", "format": "unix"}"#).unwrap();
    assert!(unix.parse::<i64>().unwrap() > 1_600_000_000);
    let utc = tool.execute(r#"{"timezone": "utc", "format": "rfc2822"}"#).unwrap();
    assert!(utc.ends_with("+0000"));
    let iso = tool.execute(r#"{"timezone": "utc", "format": "iso8601"}"#).unwrap();
    assert!(iso.ends_with("+00:00"));
    let local = tool.execute(r#"{"timezone": "local", "format": "human"}"#).unwrap();
    assert!(!local.contains("UTC"));
    assert!(matches!(tool.execute(r#"{"timezone": 1}"#), Err(ToolError::InvalidArguments(_))));
    assert!(matches!(tool.execute("[]"), Err(ToolError::InvalidArguments(_))));
}

#[test]
fn a_moment_is_written_in_each_format() {
    let at = Moment { seconds: 1431648000, nanos: 0, offset: 0 };
    assert_eq!(render(at, Clock::Utc, TimeFormat::Iso8601), Some("2015-05-15T00:00:00+00:00".to_string()));
    assert_eq!(render(at, Clock::Utc, TimeFormat::Rfc2822), Some("Fri, 15 May 2015 00:00:00 +0000".to_string()));
    assert_eq!(render(at, Clock::Utc, TimeFormat::Unix), Some("1431648000".to_string()));
    assert_eq!(render(at, Clock::Utc, TimeFormat::Human), Some("May 15, 2015 12:00 AM UTC".to_string()));
    assert_eq!(render(at, Clock::Local, TimeFormat::Human), Some("May 15, 2015 12:00 AM".to_string()));
}

#[test]
fn a_moment_is_written_by_its_offset_and_its_fraction() {
    let at = Moment { seconds: 1431648000, nanos: 500_000_000, offset: 7200 };
    assert_eq!(render(at, Clock::Local, TimeFormat::Iso8601), Some("2015-05-15T02:00:00.500+02:00".to_string()));
    assert_eq!(render(at, Clock::Local, TimeFormat::Rfc2822), Some("Fri, 15 May 2015 02:00:00 +0200".to_string()));
    assert_eq!(render(at, Clock::Local, TimeFormat::Human), Some("May 15, 2015 02:00 AM".to_string()));
    assert_eq!(render(at, Clock::Local, TimeFormat::Unix), Some("1431648000".to_string()));
    let west = Moment { seconds: 1431648000, nanos: 0, offset: -3600 * 5 };
    assert_eq!(render(west, Clock::Local, TimeFormat::Human), Some("May 14, 2015 07:00 PM".to_string()));
}

#[test]
fn a_moment_that_cannot_be_written_gives_nothing() {
    let far = Moment { seconds: i64::MAX, nanos: 0, offset: 0 };
    assert_eq!(render(far, Clock::Utc, TimeFormat::Iso8601), None);
    assert_eq!(render(far, Clock::Utc, TimeFormat::Rfc2822), None);
    assert_eq!(render(far, Clock::Utc, TimeFormat::Human), None);
    assert_eq!(render(far, Clock::Utc, TimeFormat::Unix), Some("9223372036854775807".to_string()));
    let skewed = Moment { seconds: 0, nanos: 0, offset: 86_400 };
    assert_eq!(render(skewed, Clock::Local, TimeFormat::Iso8601), None);
    let bad_fraction = Moment { seconds: 0, nanos: 2_000_000_000, offset: 0 };
    assert_eq!(render(bad_fraction, Clock::Utc, TimeFormat::Iso8601), None);
    let year_10000 = Moment { seconds: 253_402_300_800, nanos: 0, offset: 0 };
    assert_eq!(render(year_10000, Clock::Utc, TimeFormat::Rfc2822), None);
    assert_eq!(render(year_10000, Clock::Utc, TimeFormat::Iso8601), Some("+10000-01-01T00:00:00+00:00".to_string()));
    let year_9999 = Moment { seconds: 253_402_300_799, nanos: 0, offset: 0 };
    assert_eq!(render(year_9999, Clock::Utc, TimeFormat::Rfc2822), Some("Fri, 31 Dec 9999 23:59:59 +0000".to_string()));
}

#[test]
fn whole_numbers_are_written_with_their_sign() {
    assert_eq!(signed_decimal(0), "0");
    assert_eq!(signed_decimal(7), "7");
    assert_eq!(signed_decimal(-5), "-5");
    assert_eq!(signed_decimal(-10), "-10");
    assert_eq!(signed_decimal(1431648000), "1431648000");
    assert_eq!(signed_decimal(i64::MAX), i64::MAX.to_string());
    assert_eq!(signed_decimal(i64::MIN), i64::MIN.to_string());
    assert_eq!(signed_decimal(i64::MIN + 1), (i64::MIN + 1).to_string());
}

#[test]
fn the_time_told_is_close_to_the_clock() {
    let before = std::time::SystemTime::now().duration_since(std::time::UNIX_EPOCH).unwrap().as_secs() as i64;
    let told = CurrentTimeTool.execute(r#"{"format": "unix", "timezone": "utc"}"#).unwrap().parse::<i64>().unwrap();
    let local = CurrentTimeTool.execute(r#"{"format": "unix"}"#).unwrap().parse::<i64>().unwrap();
    let after = std::time::SystemTime::now().duration_since(std::time::UNIX_EPOCH).unwrap().as_secs() as i64;
    assert!(before <= told && told <= after);
    assert!(before <= local && local <= after);
}
