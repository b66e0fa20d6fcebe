#[test]
fn given_html_with_headings_is_provided() {
    let html = "<h1>Main Title</h1><h2>Subtitle</h2>";
    assert!(html.contains("<h1>"));
    assert!(html.contains("</h1>"));
}

#[test]
fn given_html_with_links_is_provided() {
    let html = r#"<a href="link1">Link 1</a><a href="link2">Link 2</a>"#;
    assert!(html.contains("<a href="));
}

#[test]
fn given_html_with_forms_is_provided() {
    let html = r#"<form><input name="username" /><input name="password" /></form>"#;
    assert!(html.contains("<form"));
    assert!(html.contains("name=\"username\""));
}

#[test]
fn given_html_with_tables_is_provided() {
    let html = r#"<table><tr><td>Cell 1</td><td>Cell 2</td></tr></table>"#;
    assert!(html.contains("<table>"));
}

#[test]
fn given_html_with_code_blocks_is_provided() {
    let html = "<pre><code>let x = 1;</code></pre>";
    assert!(html.contains("<pre>"));
}

#[test]
fn given_html_with_dynamic_content_when_waiting_then_should_load() {
    let html = r#"<div id="content"></div><script>document.getElementById('content').innerHTML = 'Done'</script>"#;
    let has_script = html.contains("<script>");
    let has_dynamic_id = html.contains("id=\"content\"");
    assert!(has_script);
    assert!(has_dynamic_id);
}

#[test]
fn given_extracted_titles_when_formatted_then_show_number_and_text() {
    let titles = vec![
        "First Title".to_string(),
        "Second Title".to_string(),
        "Third Title".to_string(),
    ];
    let mut output = String::new();
    for (i, title) in titles.iter().take(3).enumerate() {
        output.push_str(&format!("{}. {}\n", i + 1, title));
    }
    assert!(output.contains("1. First Title"));
    assert!(output.contains("2. Second Title"));
    assert!(output.contains("3. Third Title"));
}
