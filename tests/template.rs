use rllm::error::RllmError;
use rllm::results::ChainResult;
use rllm::template::render;

fn done(entries: &[(&str, &str)]) -> ChainResult {
    let mut r = ChainResult::new();
    for (k, v) in entries {
        r.push(k.to_string(), v.to_string());
    }
    r
}

#[test]
fn render_without_placeholders_is_identity() {
    let d = done(&[("a", "x"), ("b", "y")]);
    for t in ["", "plain text", "a { b } c", "{{ unterminated", "}} {", "accents: é à ü"] {
        assert_eq!(render(t, &d).unwrap(), t);
        assert_eq!(render(t, &ChainResult::new()).unwrap(), t);
    }
}

#[test]
fn render_substitutes_every_occurrence() {
    let d = done(&[("a", "1"), ("b", "two")]);
    assert_eq!(render("{{a}}+{{b}}={{a}}{{b}}", &d).unwrap(), "1+two=1two");
}

#[test]
fn render_missing_name_is_template_error() {
    let d = done(&[("a", "1")]);
    assert_eq!(render("x {{a}} {{zz}} {{q}}", &d), Err(RllmError::TemplateError("zz".to_string())));
}

#[test]
fn render_keeps_unicode_around_placeholders() {
    let d = done(&[("analysis", "ok")]);
    assert_eq!(render("Voici: {{analysis}} — génère", &d).unwrap(), "Voici: ok — génère");
}

#[test]
fn render_name_runs_to_first_closing_braces() {
    let d = done(&[("{a", "V")]);
    assert_eq!(render("{{{a}}}", &d).unwrap(), "V}");
}

#[test]
fn render_output_is_not_rendered_again() {
    let d = done(&[("a", "{{b}}")]);
    assert_eq!(render("{{a}}", &d).unwrap(), "{{b}}");
}
