use rtpl::data::add_environment_to_context;
use rtpl::error::Failure;
use rtpl::template::{
    load_template, output_written, read_template_from_file, read_template_from_stdin,
    render_template, template_added, template_bindings, template_rendered, write_output,
    Destination, TemplateSource,
};
use serde_json::Value;
use std::io::{Read, Write};
use tempfile::NamedTempFile;

fn object(entries: Vec<(&str, Value)>) -> Value {
    let mut map = serde_json::Map::new();
    for (name, value) in entries {
        map.insert(name.to_string(), value);
    }
    Value::Object(map)
}

fn render(template_content: &str, context: &Value) -> Result<String, Failure> {
    let rendering = render_template(template_content, context);
    let mut engine = tera::Tera::default();
    template_added(engine.add_raw_template(&rendering.name, &rendering.content))?;
    template_rendered(engine.render(&rendering.name, &rendering.bindings))
}

#[test]
fn test_load_template_from_file() {
    let mut temp_file = NamedTempFile::new().unwrap();
    let template_content = "Hello {{ name }}!";
    temp_file.write_all(template_content.as_bytes()).unwrap();

    let file_path = temp_file.path().to_str().unwrap();

    let result = match load_template(Some(file_path), false).unwrap() {
        TemplateSource::File(path) => {
            assert_eq!(path, file_path);
            let mut text = String::new();
            let content = temp_file
                .reopen()
                .and_then(|mut file| file.read_to_string(&mut text))
                .map(|_| text)
                .map_err(|error| error.to_string());
            read_template_from_file(&path, content).unwrap()
        }
        TemplateSource::Stdin => panic!("the file was not chosen"),
    };

    assert_eq!(result, template_content);
}

#[test]
fn test_render_template() {
    let template_content = "Hello {{ name }}!";

    let context = object(vec![("name", Value::from("World"))]);

    let result = render(template_content, &context).unwrap();

    assert_eq!(result, "Hello World!");
}

#[test]
fn test_render_template_with_env() {
    let template_content = "User: {{ _ENV.USER }}";

    let context = object(vec![("_ENV", object(vec![("USER", Value::from("test_user"))]))]);

    let result = render(template_content, &context).unwrap();

    assert_eq!(result, "User: test_user");
}

#[test]
fn test_write_output_to_file() {
    let content = "Test output";

    let mut temp_file = NamedTempFile::new().unwrap();
    let file_path = temp_file.path().to_str().unwrap().to_string();

    let output = write_output(content, Some(&file_path));
    match &output.destination {
        Destination::File(path) => {
            assert_eq!(path, &file_path);
            let written =
                temp_file.write_all(output.text.as_bytes()).map_err(|error| error.to_string());
            output_written(Some(&file_path), written).unwrap();
        }
        Destination::Stdout => panic!("the file was not chosen"),
    }

    let mut result = String::new();
    temp_file.reopen().unwrap().read_to_string(&mut result).unwrap();

    assert_eq!(result, content);
}

#[test]
fn test_load_template_from_stdin_is_chosen() {
    assert!(matches!(load_template(None, true), Ok(TemplateSource::Stdin)));
}

#[test]
fn test_load_template_file_and_stdin_conflict() {
    let result = load_template(Some("page.j2"), true);

    match result {
        Err(failure) => {
            assert_eq!(failure.to_string(), "Cannot read template from both file and stdin");
            assert!(matches!(failure, Failure::SourceConflict));
        }
        Ok(source) => panic!("a source was chosen: {:?}", source),
    }
}

#[test]
fn test_load_template_nothing_given() {
    let result = load_template(None, false);

    match result {
        Err(failure) => {
            assert_eq!(failure.to_string(), "No template file provided");
            assert!(matches!(failure, Failure::NoTemplateFile));
        }
        Ok(source) => panic!("a source was chosen: {:?}", source),
    }
}

#[test]
fn test_read_template_from_stdin_text() {
    let result = read_template_from_stdin(Ok("Hello {{ name }}!\n".to_string())).unwrap();

    assert_eq!(result, "Hello {{ name }}!\n");
}

#[test]
fn test_read_template_from_stdin_failure() {
    let result = read_template_from_stdin(Err("stream closed".to_string()));

    match result {
        Err(Failure::ReadTemplate { path, detail }) => {
            assert_eq!(path, None);
            assert_eq!(detail, "stream closed");
        }
        other => panic!("not a read failure: {:?}", other),
    }
    let failure = read_template_from_stdin(Err("stream closed".to_string())).unwrap_err();
    assert_eq!(failure.to_string(), "Failed to read template from stdin");
}

#[test]
fn test_read_template_from_file_failure() {
    let result = read_template_from_file("page.j2", Err("No such file".to_string()));

    match result {
        Err(Failure::ReadTemplate { path, detail }) => {
            assert_eq!(path, Some("page.j2".to_string()));
            assert_eq!(detail, "No such file");
        }
        other => panic!("not a read failure: {:?}", other),
    }
    let failure = read_template_from_file("page.j2", Err("No such file".to_string())).unwrap_err();
    assert_eq!(failure.to_string(), "Failed to read template file: page.j2");
}

#[test]
fn test_render_template_prepares_text_and_bindings() {
    let context = object(vec![("name", Value::from("World")), ("count", Value::from(3))]);

    let rendering = render_template("Hello {{ name }}!", &context);

    assert_eq!(rendering.name, "template");
    assert_eq!(rendering.content, "Hello {{ name }}!");
    assert_eq!(rendering.bindings.clone().into_json(), context);
}

#[test]
fn test_render_template_prepares_no_bindings_for_non_object() {
    let context = Value::Array(vec![Value::from(1), Value::from(2), Value::from(3)]);

    let rendering = render_template("static", &context);

    assert_eq!(rendering.name, "template");
    assert_eq!(rendering.content, "static");
    assert_eq!(rendering.bindings.into_json(), object(vec![]));
}

#[test]
fn test_render_template_keeps_any_text() {
    let rendering = render_template("Hello {{ name", &object(vec![]));

    assert_eq!(rendering.content, "Hello {{ name");

    let empty = render_template("", &Value::Null);

    assert_eq!(empty.name, "template");
    assert_eq!(empty.content, "");
}

#[test]
fn test_template_added_keeps_success() {
    assert!(template_added(Ok(())).is_ok());
}

#[test]
fn test_template_added_wraps_refusal() {
    let mut engine = tera::Tera::default();
    let refusal = engine.add_raw_template("template", "{% if %}");
    assert!(refusal.is_err());

    let failure = template_added(refusal).unwrap_err();

    assert_eq!(failure.to_string(), "Failed to add template to Tera");
    assert!(matches!(failure, Failure::AddTemplate { .. }));
}

#[test]
fn test_template_rendered_wraps_failure() {
    let mut engine = tera::Tera::default();
    engine.add_raw_template("template", "Hello {{ name }}!").unwrap();
    let outcome = engine.render("template", &tera::Context::new());
    assert!(outcome.is_err());

    let failure = template_rendered(outcome).unwrap_err();

    assert_eq!(failure.to_string(), "Failed to render template");
    assert!(matches!(failure, Failure::Render { .. }));
}

#[test]
fn test_template_rendered_keeps_text() {
    let result = template_rendered(Ok("Hello World!\n".to_string())).unwrap();

    assert_eq!(result, "Hello World!\n");
}

#[test]
fn test_template_bindings_of_object() {
    let context = object(vec![
        ("name", Value::from("World")),
        ("count", Value::from(3)),
        ("nested", object(vec![("deep", Value::Bool(true))])),
    ]);

    let bindings = template_bindings(&context);

    assert_eq!(bindings.clone().into_json(), context);
    assert_eq!(bindings.get("name"), Some(&Value::from("World")));
    assert_eq!(bindings.get("count"), Some(&Value::from(3)));
    assert!(!bindings.contains_key("deep"));
}

#[test]
fn test_template_bindings_of_non_objects_are_empty() {
    let values = vec![
        Value::Null,
        Value::from(5),
        Value::from("name"),
        Value::Array(vec![Value::from(1), Value::from(2), Value::from(3)]),
    ];
    for value in values {
        let bindings = template_bindings(&value);

        assert_eq!(bindings.into_json(), object(vec![]));
    }
}

#[test]
fn test_render_static_text_with_non_object() {
    let context = Value::Array(vec![Value::from(1), Value::from(2), Value::from(3)]);

    let result = render("no variables here", &context).unwrap();

    assert_eq!(result, "no variables here");
}

#[test]
fn test_render_loops_and_conditions() {
    let context = object(vec![
        ("items", Value::Array(vec![Value::from("a"), Value::from("b")])),
        ("shout", Value::Bool(true)),
    ]);

    let result = render(
        "{% for item in items %}{{ item }}{% if shout %}!{% endif %}{% endfor %}",
        &context,
    )
    .unwrap();

    assert_eq!(result, "a!b!");
}

#[test]
fn test_render_after_environment_overlay() {
    let mut context = object(vec![("greeting", Value::from("Hi"))]);
    add_environment_to_context(
        &mut context,
        &vec![("USER".to_string(), "test_user".to_string())],
    );

    let result = render("{{ greeting }} {{ _ENV.USER }}", &context).unwrap();

    assert_eq!(result, "Hi test_user");
}

#[test]
fn test_render_invalid_syntax() {
    let result = render("Hello {{ name", &object(vec![]));

    match result {
        Err(failure) => {
            assert_eq!(failure.to_string(), "Failed to add template to Tera");
            assert!(matches!(failure, Failure::AddTemplate { .. }));
        }
        Ok(text) => panic!("rendered: {:?}", text),
    }
}

#[test]
fn test_render_template_with_missing_parent() {
    let result = render("{% extends \"base\" %}", &object(vec![]));

    match result {
        Err(failure) => {
            assert_eq!(failure.to_string(), "Failed to add template to Tera");
            assert!(matches!(failure, Failure::AddTemplate { .. }));
        }
        Ok(text) => panic!("rendered: {:?}", text),
    }
}

#[test]
fn test_render_refusal_does_not_depend_on_data() {
    let contexts = vec![
        object(vec![("name", Value::from("World"))]),
        Value::Array(vec![Value::from(1)]),
        Value::Null,
    ];
    for context in contexts {
        let refused = render("{% if %}", &context);
        assert!(matches!(refused, Err(Failure::AddTemplate { .. })));

        let taken = render("plain text", &context);
        assert_eq!(taken.unwrap(), "plain text");
    }
}

#[test]
fn test_render_missing_variable() {
    let result = render("Hello {{ name }}!", &object(vec![]));

    match result {
        Err(failure) => {
            assert_eq!(failure.to_string(), "Failed to render template");
            assert!(matches!(failure, Failure::Render { .. }));
        }
        Ok(text) => panic!("rendered: {:?}", text),
    }
}

#[test]
fn test_render_variable_of_non_object_is_missing() {
    let result = render("Hello {{ name }}!", &Value::from("name"));

    assert!(matches!(result, Err(Failure::Render { .. })));
}

#[test]
fn test_write_output_to_stdout_is_chosen() {
    let output = write_output("Test output\n", None);

    assert!(matches!(output.destination, Destination::Stdout));
    assert_eq!(output.text, "Test output\n");
}

#[test]
fn test_write_output_keeps_text_exactly() {
    let output = write_output("", Some("out.txt"));

    assert!(matches!(&output.destination, Destination::File(path) if path == "out.txt"));
    assert_eq!(output.text, "");
}

#[test]
fn test_output_written_failure() {
    let to_file = output_written(Some("out.txt"), Err("disk full".to_string())).unwrap_err();
    assert_eq!(to_file.to_string(), "Failed to write to output file: out.txt");
    assert!(matches!(&to_file, Failure::WriteOutput { path: Some(path), detail }
        if path == "out.txt" && detail == "disk full"));

    let to_stdout = output_written(None, Err("broken pipe".to_string())).unwrap_err();
    assert_eq!(to_stdout.to_string(), "Failed to write to stdout");
    assert!(matches!(to_stdout, Failure::WriteOutput { path: None, .. }));

    assert!(output_written(None, Ok(())).is_ok());
}
