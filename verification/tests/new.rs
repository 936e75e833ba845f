use napi_cli::new::{cargo_toml_context, package_json_context};
use napi_cli::template::{render, Context, RenderError};
use napi_cli::{NewCommand, AVAILABLE_TARGETS, DEFAULT_TARGETS};

fn command(path: &str) -> NewCommand {
    NewCommand {
        path: path.to_string(),
        name: None,
        targets: None,
        enable_default_targets: false,
        enable_all_targets: false,
        type_def: false,
        enable_github_actions: false,
    }
}

fn strings(items: &[&str]) -> Vec<String> {
    items.iter().map(|item| item.to_string()).collect()
}

#[test]
fn name_is_asked_for_with_the_path_as_default() {
    let mut new = command("my-addon");
    assert_eq!(new.name_prompt(), Some("my-addon".to_string()));
    new.fetch_name("@scope/addon".to_string());
    assert_eq!(new.name, Some("@scope/addon".to_string()));
    assert_eq!(new.name_prompt(), None);
    assert_eq!(new.path, "my-addon");
}

#[test]
fn known_name_is_kept() {
    let mut new = command("my-addon");
    new.name = Some("given".to_string());
    assert_eq!(new.name_prompt(), None);
    new.fetch_name("other".to_string());
    assert_eq!(new.name, Some("given".to_string()));
}

#[test]
fn given_targets_are_kept() {
    let mut new = command("p");
    new.targets = Some(strings(&["x86_64-unknown-freebsd"]));
    new.enable_default_targets = true;
    new.enable_all_targets = true;
    assert!(!new.asks_targets());
    assert!(new.fetch_targets(&vec![0, 1]));
    assert_eq!(new.targets, Some(strings(&["x86_64-unknown-freebsd"])));
}

#[test]
fn default_targets_come_before_all_targets() {
    let mut new = command("p");
    new.enable_default_targets = true;
    new.enable_all_targets = true;
    assert!(!new.asks_targets());
    assert!(new.fetch_targets(&vec![]));
    assert_eq!(new.targets, Some(strings(&DEFAULT_TARGETS)));
}

#[test]
fn all_targets_are_taken_where_asked_for() {
    let mut new = command("p");
    new.enable_all_targets = true;
    assert!(!new.asks_targets());
    assert!(new.fetch_targets(&vec![3]));
    assert_eq!(new.targets, Some(strings(&AVAILABLE_TARGETS)));
}

#[test]
fn empty_choice_is_made_again() {
    let mut new = command("p");
    assert!(new.asks_targets());
    assert!(!new.fetch_targets(&vec![]));
    assert_eq!(new.targets, None);
    assert!(new.asks_targets());
    assert!(new.fetch_targets(&vec![12, 5]));
    assert_eq!(new.targets, Some(strings(&["armv7-linux-androideabi", "x86_64-apple-darwin"])));
    assert!(!new.asks_targets());
}

#[test]
fn settled_targets_do_not_change() {
    let mut new = command("p");
    assert!(new.fetch_targets(&vec![1]));
    assert!(new.fetch_targets(&vec![2]));
    assert_eq!(new.targets, Some(strings(&["aarch64-linux-android"])));
}

#[test]
fn flags_stay_as_they_are() {
    let mut new = command("p");
    new.type_def = true;
    new.enable_github_actions = true;
    new.fetch_name("n".to_string());
    new.fetch_targets(&vec![0]);
    assert!(new.type_def);
    assert!(new.enable_github_actions);
    assert!(!new.enable_default_targets);
    assert!(!new.enable_all_targets);
    assert_eq!(new.path, "p");
}

#[test]
fn files_lie_under_the_path() {
    let new = command("some/dir");
    assert_eq!(new.file_path("Cargo.toml"), "some/dir/Cargo.toml");
    assert_eq!(new.file_path("src/lib.rs"), "some/dir/src/lib.rs");
    assert_eq!(command("").file_path("x"), "/x");
}

#[test]
fn cargo_toml_context_holds_the_crate_name_and_the_versions() {
    let context = cargo_toml_context("@scope/pkg");
    assert_eq!(
        context.texts,
        vec![
            ("name".to_string(), "scope-pkg".to_string()),
            ("license".to_string(), "MIT".to_string())
        ]
    );
    assert_eq!(
        context.numbers,
        vec![
            ("napi_version".to_string(), 2),
            ("napi_derive_version".to_string(), 2),
            ("napi_build_version".to_string(), 1)
        ]
    );
    assert!(context.lists.is_empty());
}

#[test]
fn package_json_context_holds_the_names_and_the_targets() {
    let targets = strings(&["x86_64-apple-darwin", "i686-pc-windows-msvc"]);
    let context = package_json_context("@scope/pkg", &targets);
    assert_eq!(
        context.texts,
        vec![
            ("name".to_string(), "@scope/pkg".to_string()),
            ("binary_name".to_string(), "pkg".to_string()),
            ("license".to_string(), "MIT".to_string()),
            ("min_node_version".to_string(), "10".to_string())
        ]
    );
    assert!(context.numbers.is_empty());
    assert_eq!(context.lists, vec![("targets".to_string(), targets)]);
}

#[test]
fn cargo_toml_is_rendered() {
    let new = command("dir");
    let template = "[package]\nname = \"{{ name }}\"\nlicense = \"{{ license }}\"\n\n[dependencies]\nnapi = \"{{ napi_version }}\"\nnapi-derive = \"{{ napi_derive_version }}\"\n\n[build-dependencies]\nnapi-build = \"{{ napi_build_version }}\"";
    let file = new.cargo_toml(template, "@scope/pkg").unwrap();
    assert_eq!(file.path, "dir/Cargo.toml");
    assert_eq!(
        file.content,
        "[package]\nname = \"scope-pkg\"\nlicense = \"MIT\"\n\n[dependencies]\nnapi = \"2\"\nnapi-derive = \"2\"\n\n[build-dependencies]\nnapi-build = \"1\""
    );
}

#[test]
fn package_json_is_rendered() {
    let new = command("dir");
    let template = "{\"name\": \"{{ name }}\", \"napi\": {\"name\": \"{{ binary_name }}\", \"triples\": [{% for target in targets %}\"{{ target }}\"{% if not loop.last %}, {% endif %}{% endfor %}]}, \"license\": \"{{ license }}\", \"engines\": {\"node\": \">= {{ min_node_version }}\"}}";
    let targets = strings(&["x86_64-apple-darwin", "i686-pc-windows-msvc"]);
    let file = new.package_json(template, "@scope/pkg", &targets).unwrap();
    assert_eq!(file.path, "dir/package.json");
    assert_eq!(
        file.content,
        "{\"name\": \"@scope/pkg\", \"napi\": {\"name\": \"pkg\", \"triples\": [\"x86_64-apple-darwin\", \"i686-pc-windows-msvc\"]}, \"license\": \"MIT\", \"engines\": {\"node\": \">= 10\"}}"
    );
}

#[test]
fn template_beyond_plain_is_refused() {
    let new = command("dir");
    assert!(matches!(new.cargo_toml("name = {{ name", "pkg"), Err(RenderError::NotPlain)));
    assert!(matches!(
        new.cargo_toml("name = {{ name | upper }}", "pkg"),
        Err(RenderError::NotPlain)
    ));
    assert!(matches!(
        new.package_json("{{ targets[::-1] }}", "pkg", &vec![]),
        Err(RenderError::NotPlain)
    ));
}

#[test]
fn plain_template_that_the_engine_refuses_is_an_error() {
    let new = command("dir");
    match new.package_json("{% for target in targets %}", "pkg", &vec![]) {
        Err(RenderError::Engine(message)) => assert!(!message.is_empty()),
        other => panic!("unexpected outcome: {:?}", other),
    }
    match new.cargo_toml("{% endif %}", "pkg") {
        Err(RenderError::Engine(message)) => assert!(!message.is_empty()),
        other => panic!("unexpected outcome: {:?}", other),
    }
}

#[test]
fn lib_files_are_the_library_and_the_build_script() {
    let new = command("dir");
    let files = new.lib_files("pub fn f() {}", "fn main() {}");
    assert_eq!(files.len(), 2);
    assert_eq!(files[0].path, "dir/src/lib.rs");
    assert_eq!(files[0].content, "pub fn f() {}");
    assert_eq!(files[1].path, "dir/build.rs");
    assert_eq!(files[1].content, "fn main() {}");
}

#[test]
fn render_fills_in_texts_numbers_and_lists() {
    let context = Context {
        texts: vec![("who".to_string(), "world".to_string())],
        numbers: vec![("n".to_string(), -3)],
        lists: vec![("items".to_string(), strings(&["a", "b"]))],
    };
    let source = "Hello {{ who }}! {{n}} {{ items }}:{% for item in items %} {{ item }}{% if not loop.last %},{% endif %}{% endfor %}.";
    assert_eq!(
        render("greeting.txt", source, &context).unwrap(),
        "Hello world! -3 ['a', 'b']: a, b."
    );
}

#[test]
fn render_walks_over_a_text_character_by_character() {
    let context = Context {
        texts: vec![("who".to_string(), "abc".to_string())],
        numbers: vec![],
        lists: vec![],
    };
    let source = "{% for c in who %}<{{ c }}>{% endfor %}";
    assert_eq!(render("chars.txt", source, &context).unwrap(), "<a><b><c>");
}

#[test]
fn render_puts_out_nothing_for_a_name_without_a_value() {
    let context = Context { texts: vec![], numbers: vec![], lists: vec![] };
    assert_eq!(
        render("plain.txt", "[{{ nobody }}]{% for x in nothing %}x{% endfor %}", &context).unwrap(),
        "[]"
    );
}

#[test]
fn render_without_placeholders_is_the_source() {
    let context = Context { texts: vec![], numbers: vec![], lists: vec![] };
    assert_eq!(render("plain.txt", "no placeholders", &context).unwrap(), "no placeholders");
    assert_eq!(render("plain.txt", "{ a } } {", &context).unwrap(), "{ a } } {");
}

#[test]
fn render_escapes_by_the_name_of_the_template() {
    let context = Context {
        texts: vec![("who".to_string(), "<b>".to_string())],
        numbers: vec![],
        lists: vec![],
    };
    assert_eq!(render("page.html", "{{ who }}", &context).unwrap(), "&lt;b&gt;");
    assert_eq!(render("page.txt", "{{ who }}", &context).unwrap(), "<b>");
}

#[test]
fn render_reports_what_the_engine_says() {
    let context = Context { texts: vec![], numbers: vec![], lists: vec![] };
    match render("broken.txt", "{% endfor %}", &context) {
        Err(RenderError::Engine(message)) => assert!(!message.is_empty()),
        other => panic!("unexpected outcome: {:?}", other),
    }
    match render("broken.txt", "{% if not loop.last %}x{% endif %}", &context) {
        Err(RenderError::Engine(message)) => assert!(!message.is_empty()),
        other => panic!("unexpected outcome: {:?}", other),
    }
    let numbers = Context { texts: vec![], numbers: vec![("n".to_string(), 3)], lists: vec![] };
    match render("broken.txt", "{% for x in n %}{% endfor %}", &numbers) {
        Err(RenderError::Engine(message)) => assert!(!message.is_empty()),
        other => panic!("unexpected outcome: {:?}", other),
    }
}

#[test]
fn render_refuses_what_stops_the_engine() {
    let context = Context {
        texts: vec![("name".to_string(), String::new())],
        numbers: vec![],
        lists: vec![],
    };
    for source in [
        "{{ \"\"[::-1] }}",
        "{{ name[::-1] }}",
        "{{ range(9223372036854775807, -1, -1) }}",
        "{{ loop.cycle() }}",
        "{% for x in name %}{{ loop.cycle() }}{% endfor %}",
    ] {
        assert!(matches!(render("t.txt", source, &context), Err(RenderError::NotPlain)));
    }
    let mut deep = String::from("{{ ");
    for _ in 0..200000 {
        deep.push_str("not ");
    }
    deep.push_str("name }}");
    assert!(matches!(render("t.txt", &deep, &context), Err(RenderError::NotPlain)));
    let mut minus = String::from("{{ ");
    for _ in 0..200000 {
        minus.push('-');
    }
    minus.push_str("1 }}");
    assert!(matches!(render("t.txt", &minus, &context), Err(RenderError::NotPlain)));
}

#[test]
fn render_reports_loops_that_nest_too_deep() {
    let context = Context { texts: vec![], numbers: vec![], lists: vec![] };
    let mut source = String::new();
    for _ in 0..1000 {
        source.push_str("{% for x in nothing %}");
    }
    for _ in 0..1000 {
        source.push_str("{% endfor %}");
    }
    assert!(matches!(render("t.txt", &source, &context), Err(RenderError::Engine(_))));
}

#[test]
fn rendered_file_pairs_the_text_with_the_path() {
    let new = command("dir");
    let file = new.rendered_file("a.txt", Ok("text".to_string())).unwrap();
    assert_eq!(file.path, "dir/a.txt");
    assert_eq!(file.content, "text");
}

#[test]
fn rendered_file_hands_the_error_on() {
    let new = command("dir");
    let failed = Err(RenderError::Engine("why".to_string()));
    match new.rendered_file("a.txt", failed) {
        Err(RenderError::Engine(message)) => assert_eq!(message, "why"),
        other => panic!("unexpected outcome: {:?}", other),
    }
    assert!(matches!(
        new.rendered_file("a.txt", Err(RenderError::NotPlain)),
        Err(RenderError::NotPlain)
    ));
}
