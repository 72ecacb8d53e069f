use ai_toolbox::utils::format_url;

#[test]
fn every_placeholder_is_filled() {
    assert_eq!(format_url("https://host/{}/items/{}", "v1"), "https://host/v1/items/v1");
    assert_eq!(format_url("https://host/models", "v1"), "https://host/models");
    assert_eq!(format_url("{}", ""), "");
    assert_eq!(format_url("", "x"), "");
}

#[test]
fn placeholders_in_the_value_are_not_filled_again() {
    assert_eq!(format_url("a{}b", "{}"), "a{}b");
    assert_eq!(format_url("{{}}", "x"), "{x}");
    assert_eq!(format_url("{}{}", "ab"), "abab");
}

#[test]
fn format_url_agrees_with_replace() {
    for origin in ["", "{", "}", "{}", "}{", "/v1/{}/x/{}{}", "{ }", "日本{}語"] {
        for params in ["", "p", "{}", "值"] {
            assert_eq!(format_url(origin, params), origin.replace("{}", params));
        }
    }
}
