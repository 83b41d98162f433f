use ts_error_translator::catalog::Catalog;
use ts_error_translator::rewrite::{extract_error_code, extract_params, translate_message};
use ts_error_translator::subst::substitute_params;
use ts_error_translator::TranslationMode;

#[test]
fn test_pattern_to_regex_simple() {
    let pattern = "Property '{0}' does not exist on type '{1}'.";
    let params = extract_params(pattern, "Property 'foo' does not exist on type 'Bar'.").unwrap();
    assert_eq!(params[0], "foo");
    assert_eq!(params[1], "Bar");
}

#[test]
fn test_pattern_to_regex_three_params() {
    let pattern = "Expected {0} arguments, but got {1}.";
    let params = extract_params(pattern, "Expected 2 arguments, but got 3.").unwrap();
    assert_eq!(params[0], "2");
    assert_eq!(params[1], "3");
}

#[test]
fn test_substitute_params() {
    let template = "You're trying to access '{0}' on an object that doesn't contain it.";
    let params = vec!["foo", "Bar"];
    let result = substitute_params(template, &params);
    assert_eq!(
        result,
        "You're trying to access 'foo' on an object that doesn't contain it."
    );
}

#[test]
fn test_extract_params() {
    let catalog = Catalog::new();
    let info = catalog.lookup(2339).unwrap();
    let params = extract_params(
        info.pattern.as_str(),
        "Property 'foo' does not exist on type 'Bar'.",
    )
    .unwrap();
    assert_eq!(params, vec!["foo", "Bar"]);
}

#[test]
fn test_translate_with_params() {
    let catalog = Catalog::new();
    let msg = "Property 'foo' does not exist on type 'Bar'.";
    let result = translate_message(&catalog, msg, Some(2339), TranslationMode::Append);
    assert!(result.contains(msg));
    assert!(result.contains("You're trying to access 'foo' on an object that doesn't contain it."));
}

#[test]
fn test_translate_replace_with_params() {
    let catalog = Catalog::new();
    let msg = "Property 'foo' does not exist on type 'Bar'.";
    let result = translate_message(&catalog, msg, Some(2339), TranslationMode::Replace);
    assert!(!result.contains(msg));
    assert!(result.contains("You're trying to access 'foo' on an object that doesn't contain it."));
}

#[test]
fn test_translate_type_mismatch() {
    let catalog = Catalog::new();
    let msg = "Type 'string' is not assignable to type 'number'.";
    let result = translate_message(&catalog, msg, Some(2322), TranslationMode::Append);
    assert!(result.contains("I was expecting a type matching 'number' but instead you passed 'string'."));
}

#[test]
fn test_translate_argument_count() {
    let catalog = Catalog::new();
    let msg = "Expected 2 arguments, but got 3.";
    let result = translate_message(&catalog, msg, Some(2554), TranslationMode::Append);
    assert!(result.contains("This function needs 2 argument(s), but you're passing 3."));
}

#[test]
fn test_unknown_code_unchanged() {
    let catalog = Catalog::new();
    let msg = "Some unknown error";
    let result = translate_message(&catalog, msg, Some(99999), TranslationMode::Append);
    assert_eq!(result, msg);
}

#[test]
fn test_extracts_code_from_message_text() {
    let catalog = Catalog::new();
    let msg = "error TS2339: Property 'x' does not exist on type 'Y'.";
    let result = translate_message(&catalog, msg, None, TranslationMode::Append);
    assert!(result.contains("\u{25cf}"));
}

#[test]
fn test_cannot_find_name() {
    let catalog = Catalog::new();
    let msg = "Cannot find name 'myVariable'.";
    let result = translate_message(&catalog, msg, Some(2304), TranslationMode::Append);
    assert!(result.contains("I can't find 'myVariable' - it might not be imported or defined."));
}

#[test]
fn test_module_no_export() {
    let catalog = Catalog::new();
    let msg = "Module './utils' has no exported member 'helper'.";
    let result = translate_message(&catalog, msg, Some(2305), TranslationMode::Append);
    assert!(result.contains("'helper' is not exported from './utils'."));
}

#[test]
fn generated_message_extracts_and_renders_back() {
    // pattern and template of entry 2322 share two placeholders: a message
    // generated from the pattern extracts the same values, and the template
    // rendered with them carries the values through
    let catalog = Catalog::new();
    let info = catalog.lookup(2322).unwrap();
    let generated = substitute_params(info.pattern.as_str(), &["foo", "Bar"]);
    assert_eq!(generated, "Type 'foo' is not assignable to type 'Bar'.");
    let extracted = extract_params(info.pattern.as_str(), generated.as_str()).unwrap();
    assert_eq!(extracted, vec!["foo", "Bar"]);
    let refs: Vec<&str> = extracted.iter().map(|s| s.as_str()).collect();
    let rendered = substitute_params(info.message.as_str(), &refs);
    assert_eq!(
        rendered,
        "I was expecting a type matching 'Bar' but instead you passed 'foo'."
    );
}

#[test]
fn pattern_metacharacters_match_literally() {
    // the dot and parentheses of a pattern are escaped: a message that would
    // only match them as regex syntax is rejected
    let pattern = "Found {0} (maybe).";
    assert_eq!(
        extract_params(pattern, "Found x (maybe)."),
        Some(vec!["x".to_string()])
    );
    assert_eq!(extract_params(pattern, "Found x (maybe)x"), None);
    assert_eq!(extract_params(pattern, "Found x maybe)."), None);
}

#[test]
fn extraction_is_anchored_at_both_ends() {
    let pattern = "Cannot find name '{0}'.";
    assert_eq!(
        extract_params(pattern, "Oh: Cannot find name 'x'."),
        None
    );
    assert_eq!(
        extract_params(pattern, "Cannot find name 'x'. More."),
        None
    );
}

#[test]
fn out_of_range_placeholder_stays_literal() {
    assert_eq!(substitute_params("a {1} b", &["x"]), "a {1} b");
    assert_eq!(substitute_params("{0} and {0}", &["z"]), "z and z");
    assert_eq!(substitute_params("{01}", &["x", "y"]), "{01}");
    assert_eq!(substitute_params("{}", &["x"]), "{}");
}

#[test]
fn extract_error_code_finds_first_token() {
    assert_eq!(extract_error_code("error TS2339: bad"), Some(2339));
    assert_eq!(extract_error_code("see ts2304 and TS2305"), Some(2304));
    assert_eq!(extract_error_code("no code here"), None);
    assert_eq!(extract_error_code("catsup1234 is not a code"), None);
}

#[test]
fn fallback_renders_template_without_substitution() {
    // a known identifier whose wording drifted still gets the template, with
    // its placeholders left literal
    let catalog = Catalog::new();
    let msg = "Some wording the pattern does not recognize";
    let result = translate_message(&catalog, msg, Some(2339), TranslationMode::Replace);
    assert_eq!(
        result,
        "\u{25cf} You're trying to access '{0}' on an object that doesn't contain it."
    );
}

#[test]
fn append_mode_output_shape() {
    let catalog = Catalog::new();
    let msg = "Expression expected.";
    let result = translate_message(&catalog, msg, Some(1109), TranslationMode::Append);
    assert_eq!(
        result,
        "Expression expected.  \u{25cf} I was expecting some code that gives me a value."
    );
}
