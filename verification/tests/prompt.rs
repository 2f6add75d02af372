use discli::error::DiscliError;
use discli::prompt::loader::{extract_variables, DirFile, PromptLoader, PromptTemplate};
use discli::prompt::registry::PromptRegistry;
use discli::prompt::variables::{substitute_variables, MessageVariables};

fn sample_vars() -> MessageVariables {
    MessageVariables {
        content: "Hello world".to_string(),
        author_id: "123".to_string(),
        author_name: "testuser".to_string(),
        channel_id: "456".to_string(),
        message_id: "789".to_string(),
        timestamp: "2024-01-01T00:00:00Z".to_string(),
        attachments: vec!["image.png".to_string()],
        embed_count: 0,
    }
}

fn vars_with(author_name: &str, content: &str) -> MessageVariables {
    MessageVariables {
        content: content.to_string(),
        author_name: author_name.to_string(),
        ..sample_vars()
    }
}

fn absolute(name: &str) -> String {
    format!("/srv/{}", name)
}

#[test]
fn test_substitute_variables() {
    let vars = MessageVariables {
        content: "Hello world".to_string(),
        author_id: "123".to_string(),
        author_name: "testuser".to_string(),
        channel_id: "456".to_string(),
        message_id: "789".to_string(),
        timestamp: "2024-01-01T00:00:00Z".to_string(),
        attachments: vec!["image.png".to_string()],
        embed_count: 0,
    };

    let template = "User {{author_name}} said: {{content}}";
    let result = substitute_variables(template, &vars);

    assert_eq!(result, "User testuser said: Hello world");
}

#[test]
fn test_unknown_variable_unchanged() {
    let vars = MessageVariables {
        content: "test".to_string(),
        author_id: "1".to_string(),
        author_name: "user".to_string(),
        channel_id: "2".to_string(),
        message_id: "3".to_string(),
        timestamp: "t".to_string(),
        attachments: vec![],
        embed_count: 0,
    };

    let template = "Field: {{unknown_field}}";
    let result = substitute_variables(template, &vars);

    assert_eq!(result, "Field: {{unknown_field}}");
}

#[test]
fn test_extract_variables() {
    let template = "Hello {{author_name}}, your message: {{content}}";
    let vars = extract_variables(template);

    assert_eq!(vars, vec!["author_name", "content"]);
}

#[test]
fn test_prompt_template_load() {
    let file_path = absolute("test.txt");

    let template = PromptTemplate::load(&file_path, Ok("Hello {{author_name}}!".to_string())).unwrap();

    assert_eq!(template.name, "test");
    assert_eq!(template.content, "Hello {{author_name}}!");
    assert_eq!(template.variables, vec!["author_name"]);
}

#[test]
fn greeting_scenario() {
    let vars = vars_with("ann", "hello");
    assert_eq!(substitute_variables("Hi {{author_name}}: {{content}}", &vars), "Hi ann: hello");
    assert_eq!(
        substitute_variables("Hi {{author_name}}: {{unknown}} {{content}}", &vars),
        "Hi ann: {{unknown}} hello"
    );
}

#[test]
fn every_variable_is_substituted() {
    let vars = MessageVariables {
        attachments: vec!["a.png".to_string(), "b.jpg".to_string(), "c.gif".to_string()],
        embed_count: 12,
        ..sample_vars()
    };
    let template = "{{content}}|{{author_id}}|{{author_name}}|{{channel_id}}|{{message_id}}|{{timestamp}}|{{attachments}}|{{embed_count}}";
    assert_eq!(
        substitute_variables(template, &vars),
        "Hello world|123|testuser|456|789|2024-01-01T00:00:00Z|a.png, b.jpg, c.gif|12"
    );
}

#[test]
fn attachments_and_counts_as_text() {
    let none = MessageVariables { attachments: vec![], embed_count: 0, ..sample_vars() };
    assert_eq!(substitute_variables("[{{attachments}}] {{embed_count}}", &none), "[] 0");
    let one = MessageVariables { embed_count: 1_000_000, ..sample_vars() };
    assert_eq!(substitute_variables("[{{attachments}}] {{embed_count}}", &one), "[image.png] 1000000");
    let big = MessageVariables { embed_count: usize::MAX, ..sample_vars() };
    assert_eq!(substitute_variables("{{embed_count}}", &big), usize::MAX.to_string());
}

#[test]
fn map_of_variables() {
    let vars = MessageVariables {
        attachments: vec!["a.png".to_string(), "b.jpg".to_string()],
        embed_count: 3,
        ..sample_vars()
    };
    let map = vars.to_map();
    assert_eq!(map.len(), 8);
    assert_eq!(map.get("content").unwrap(), "Hello world");
    assert_eq!(map.get("author_id").unwrap(), "123");
    assert_eq!(map.get("author_name").unwrap(), "testuser");
    assert_eq!(map.get("channel_id").unwrap(), "456");
    assert_eq!(map.get("message_id").unwrap(), "789");
    assert_eq!(map.get("timestamp").unwrap(), "2024-01-01T00:00:00Z");
    assert_eq!(map.get("attachments").unwrap(), "a.png, b.jpg");
    assert_eq!(map.get("embed_count").unwrap(), "3");
    assert!(map.get("unknown").is_none());
}

#[test]
fn text_without_placeholders_is_unchanged() {
    let vars = sample_vars();
    for text in ["", "plain", "{", "{{", "}}", "{{}}", "{{ content }}", "{content}", "{{content}", "{{content", "content}}", "{{a-b}}", "{ {content}}"] {
        assert_eq!(substitute_variables(text, &vars), text);
    }
}

#[test]
fn braces_around_a_placeholder() {
    let vars = vars_with("ann", "hello");
    assert_eq!(substitute_variables("{{{content}}}", &vars), "{hello}");
    assert_eq!(substitute_variables("{{{{content}}}}", &vars), "{{hello}}");
    assert_eq!(substitute_variables("{{content}}{{content}}", &vars), "hellohello");
    assert_eq!(substitute_variables("{{content{{content}}", &vars), "{{contenthello");
    assert_eq!(substitute_variables("{{x{{content}}}}", &vars), "{{xhello}}");
}

#[test]
fn values_are_not_rendered_again() {
    let vars = vars_with("{{content}}", "{{author_name}}");
    assert_eq!(substitute_variables("{{author_name}} {{content}}", &vars), "{{content}} {{author_name}}");
}

#[test]
fn unknown_placeholders_survive_rendering_twice() {
    let vars = vars_with("ann", "hello");
    for template in [
        "a {{x}} b {{content}} c {{y_1}}",
        "{{unknown}}",
        "{{Content}} {{CONTENT}}",
        "{{été}} {{名前}} {{content}}",
        "{{9}} {{_}}",
    ] {
        let once = substitute_variables(template, &vars);
        let twice = substitute_variables(&once, &vars);
        assert_eq!(once, twice);
    }
    assert_eq!(
        substitute_variables("a {{x}} b {{content}} c {{y_1}}", &vars),
        "a {{x}} b hello c {{y_1}}"
    );
}

#[test]
fn rendering_with_nothing_to_resolve_is_identity() {
    let vars = sample_vars();
    let template = "{{a}}{{b}} {{{c}}} }}{{ {{d";
    assert_eq!(substitute_variables(template, &vars), template);
}

#[test]
fn names_are_made_of_word_characters() {
    assert_eq!(extract_variables("{{a_1}} {{B}} {{été}} {{名前}} {{9}}"), vec!["9", "B", "a_1", "été", "名前"]);
    assert_eq!(extract_variables("{{a b}} {{a-b}} {{a.b}} {{}} {{ }}"), Vec::<String>::new());
}

#[test]
fn variables_are_sorted_and_unique() {
    assert_eq!(
        extract_variables("{{b}} {{a}} {{b}} {{c}} {{a}} {{ab}} {{B}}"),
        vec!["B", "a", "ab", "b", "c"]
    );
    assert_eq!(extract_variables(""), Vec::<String>::new());
    assert_eq!(extract_variables("no placeholders {here}"), Vec::<String>::new());
    assert_eq!(extract_variables("{{{x}}}"), vec!["x"]);
    assert_eq!(extract_variables("{{x{{y}}"), vec!["y"]);
}

#[test]
fn variables_include_unknown_names() {
    assert_eq!(extract_variables("{{content}} {{nobody}}"), vec!["content", "nobody"]);
}

#[test]
fn template_names() {
    let t = PromptTemplate::load(&absolute("reply.prompt.txt"), Ok(String::new())).unwrap();
    assert_eq!(t.name, "reply.prompt");
    let t = PromptTemplate::load("notes", Ok("x".to_string())).unwrap();
    assert_eq!(t.name, "notes");
    let t = PromptTemplate::load("", Ok("x".to_string())).unwrap();
    assert_eq!(t.name, "unknown");
    assert_eq!(t.content, "x");
    assert!(t.variables.is_empty());
}

#[test]
fn unreadable_template_is_an_io_error() {
    match PromptTemplate::load("a.txt", Err("permission denied".to_string())) {
        Err(DiscliError::Io(reason)) => assert_eq!(reason, "permission denied"),
        other => panic!("expected an I/O error, got {:?}", other),
    }
}

#[test]
fn relative_paths_are_resolved_against_the_prompts_dir() {
    let dir = absolute("prompts");
    let loader = PromptLoader::new(dir.clone());
    let expected = std::path::Path::new(&dir).join("a.txt").to_string_lossy().into_owned();
    assert_eq!(loader.resolve("a.txt"), expected);
    assert_ne!(loader.resolve("a.txt"), "a.txt");
    assert_eq!(loader.resolve(&absolute("b.txt")), absolute("b.txt"));
    assert_eq!(loader.needs_read("a.txt"), Some(expected));
}

#[test]
fn loaded_templates_are_cached_until_cleared() {
    let mut loader = PromptLoader::new(absolute("prompts"));
    let first = loader.load("a.txt", Ok("one {{x}}".to_string())).unwrap();
    assert_eq!(first.name, "a");
    assert_eq!(first.content, "one {{x}}");
    assert_eq!(first.variables, vec!["x"]);
    assert_eq!(loader.needs_read("a.txt"), None);

    // A changed file is not picked up while the template is held.
    let second = loader.load("a.txt", Ok("two".to_string())).unwrap();
    assert_eq!(second.content, "one {{x}}");
    let third = loader.load("a.txt", Err("gone".to_string())).unwrap();
    assert_eq!(third.content, "one {{x}}");

    loader.clear_cache();
    assert!(loader.needs_read("a.txt").is_some());
    let fourth = loader.load("a.txt", Ok("two".to_string())).unwrap();
    assert_eq!(fourth.content, "two");
}

#[test]
fn failed_load_is_not_cached() {
    let mut loader = PromptLoader::new(absolute("prompts"));
    assert!(matches!(
        loader.load("a.txt", Err("no such file".to_string())),
        Err(DiscliError::Io(reason)) if reason == "no such file"
    ));
    assert!(loader.needs_read("a.txt").is_some());
    assert_eq!(loader.load("a.txt", Ok("now".to_string())).unwrap().content, "now");
}

#[test]
fn cache_is_keyed_by_resolved_path() {
    let mut loader = PromptLoader::new(absolute("prompts"));
    loader.load("a.txt", Ok("relative".to_string())).unwrap();
    let resolved = loader.resolve("a.txt");
    assert_eq!(loader.needs_read(&resolved), None);
    assert_eq!(loader.load(&resolved, Ok("other".to_string())).unwrap().content, "relative");
    assert!(loader.needs_read("b.txt").is_some());
}

#[test]
fn load_all_takes_the_txt_files_that_load() {
    let mut loader = PromptLoader::new(absolute("prompts"));
    let files = vec![
        DirFile { path: absolute("a.txt"), read: Ok("A {{x}}".to_string()) },
        DirFile { path: absolute("b.md"), read: Ok("B".to_string()) },
        DirFile { path: absolute("c.txt"), read: Err("denied".to_string()) },
        DirFile { path: absolute("noext"), read: Ok("N".to_string()) },
        DirFile { path: absolute("d.txt"), read: Ok("D".to_string()) },
        DirFile { path: absolute("a.txt"), read: Ok("changed".to_string()) },
    ];
    let templates = loader.load_all(files);
    let seen: Vec<(&str, &str)> =
        templates.iter().map(|t| (t.name.as_str(), t.content.as_str())).collect();
    assert_eq!(seen, vec![("a", "A {{x}}"), ("d", "D"), ("a", "A {{x}}")]);
    assert_eq!(loader.needs_read(&absolute("a.txt")), None);
    assert_eq!(loader.needs_read(&absolute("d.txt")), None);
    assert!(loader.needs_read(&absolute("b.md")).is_some());
    assert!(loader.needs_read(&absolute("c.txt")).is_some());
}

#[test]
fn load_all_of_an_empty_listing() {
    let mut loader = PromptLoader::new(absolute("prompts"));
    assert!(loader.load_all(vec![]).is_empty());
}

#[test]
fn registry_renders_with_the_message() {
    let mut registry = PromptRegistry::new(absolute("prompts"));
    let vars = vars_with("ann", "hello");
    assert!(registry.needs_read("greet.txt").is_some());
    let out = registry.render("greet.txt", Ok("Hi {{author_name}}: {{content}}".to_string()), &vars);
    assert_eq!(out.unwrap(), "Hi ann: hello");
    assert_eq!(registry.needs_read("greet.txt"), None);
    // From the cache: what was read is not looked at.
    let again = registry.render("greet.txt", Err("unused".to_string()), &vars_with("bob", "bye"));
    assert_eq!(again.unwrap(), "Hi bob: bye");
}

#[test]
fn registry_surfaces_the_io_error() {
    let mut registry = PromptRegistry::new(absolute("prompts"));
    match registry.render("x.txt", Err("not found".to_string()), &sample_vars()) {
        Err(DiscliError::Io(reason)) => assert_eq!(reason, "not found"),
        other => panic!("expected an I/O error, got {:?}", other),
    }
    assert!(matches!(registry.get("x.txt", Err("e".to_string())), Err(DiscliError::Io(_))));
}

#[test]
fn registry_get_and_all() {
    let mut registry = PromptRegistry::new(absolute("prompts"));
    let t = registry.get("one.txt", Ok("{{b}}{{a}}".to_string())).unwrap();
    assert_eq!(t.name, "one");
    assert_eq!(t.variables, vec!["a", "b"]);
    let all = registry.all(vec![
        DirFile { path: absolute("two.txt"), read: Ok("2".to_string()) },
        DirFile { path: absolute("three.TXT"), read: Ok("3".to_string()) },
    ]);
    assert_eq!(all.len(), 1);
    assert_eq!(all[0].name, "two");
}

fn every_template(tokens: &[&str], longest: usize) -> Vec<String> {
    let mut all = vec![String::new()];
    let mut last = vec![String::new()];
    for _ in 0..longest {
        let mut next = Vec::new();
        for prefix in &last {
            for token in tokens {
                next.push(format!("{}{}", prefix, token));
            }
        }
        all.extend(next.iter().cloned());
        last = next;
    }
    all
}

#[test]
fn substitution_agrees_with_the_placeholder_pattern() {
    let pattern = regex::Regex::new(r"\{\{(\w+)\}\}").unwrap();
    let vars = vars_with("ann", "{{author_name}} {x}");
    let value = |name: &str| match name {
        "content" => Some("{{author_name}} {x}".to_string()),
        "author_name" => Some("ann".to_string()),
        _ => None,
    };
    let tokens = ["{", "}", "content", "author_name", "x", "é", " ", "_1"];
    for template in every_template(&tokens, 5) {
        let expected = pattern
            .replace_all(&template, |caps: &regex::Captures| {
                value(&caps[1]).unwrap_or_else(|| format!("{{{{{}}}}}", &caps[1]))
            })
            .to_string();
        assert_eq!(substitute_variables(&template, &vars), expected, "template {:?}", template);
    }
}

#[test]
fn variable_lists_agree_with_the_placeholder_pattern() {
    let pattern = regex::Regex::new(r"\{\{(\w+)\}\}").unwrap();
    let tokens = ["{", "}", "b", "a", "é", " ", "-", "_"];
    for template in every_template(&tokens, 5) {
        let mut expected: Vec<String> =
            pattern.captures_iter(&template).map(|c| c[1].to_string()).collect();
        expected.sort();
        expected.dedup();
        assert_eq!(extract_variables(&template), expected, "template {:?}", template);
    }
}

#[test]
fn variable_lists_are_in_string_order() {
    let names = ["", "a", "A", "aa", "ab", "b", "é", "z", "名", "a1", "_", "10", "9", "\u{10000}", "\u{ffff}"];
    let mut template = String::new();
    for name in names.iter().rev() {
        template.push_str(&format!("{{{{{}}}}} ", name));
    }
    let mut expected: Vec<String> =
        names.iter().filter(|n| !n.is_empty()).map(|n| n.to_string()).collect();
    expected.retain(|n| n.chars().all(regex_syntax::is_word_character));
    expected.sort();
    expected.dedup();
    assert_eq!(extract_variables(&template), expected);
}
