use twitch_gui_core::template::{render_template, tokenize, ConfigError, SubstitutionValues};

fn vals(title: &str, oauth: &str, user: &str, disp: &str) -> SubstitutionValues {
    SubstitutionValues {
        title: title.to_string(),
        oauth_token: oauth.to_string(),
        broadcaster_username: user.to_string(),
        broadcaster_displayname: disp.to_string(),
    }
}

#[test]
fn tokenize_quoted_segment_keeps_spaces() {
    let toks = tokenize("\"a b\" c").unwrap();
    assert_eq!(toks, vec!["a b".to_string(), "c".to_string()]);
}

#[test]
fn tokenize_plain_words() {
    let toks = tokenize("x $title y").unwrap();
    assert_eq!(toks, vec!["x".to_string(), "$title".to_string(), "y".to_string()]);
}

#[test]
fn tokenize_empty_and_whitespace_only() {
    assert_eq!(tokenize("").unwrap(), Vec::<String>::new());
    assert_eq!(tokenize("   \t ").unwrap(), Vec::<String>::new());
}

#[test]
fn tokenize_strips_quotes_inside_token() {
    let toks = tokenize("ab\"c d\"e f").unwrap();
    assert_eq!(toks, vec!["abc de".to_string(), "f".to_string()]);
}

#[test]
fn tokenize_empty_quotes_make_empty_token() {
    let toks = tokenize("\"\" x").unwrap();
    assert_eq!(toks, vec!["".to_string(), "x".to_string()]);
}

#[test]
fn tokenize_unbalanced_quote_is_rejected() {
    assert_eq!(tokenize("mpv \"unclosed"), Err(ConfigError::UnbalancedQuotes));
}

#[test]
fn render_substitutes_title() {
    let v = vals("Hi", "", "", "");
    let args = render_template("x $title y", &v).unwrap();
    assert_eq!(args, vec!["x".to_string(), "Hi".to_string(), "y".to_string()]);
}

#[test]
fn render_substitutes_every_placeholder() {
    let v = vals("T", "K", "login", "Login");
    let args = render_template(
        "prog $title $oauth_token $broadcaster_username $broadcaster_displayname",
        &v,
    )
    .unwrap();
    assert_eq!(
        args,
        vec![
            "prog".to_string(),
            "T".to_string(),
            "K".to_string(),
            "login".to_string(),
            "Login".to_string(),
        ]
    );
}

#[test]
fn render_keeps_token_without_placeholders() {
    let v = vals("T", "K", "u", "d");
    let args = render_template("plain --flag=value", &v).unwrap();
    assert_eq!(args, vec!["plain".to_string(), "--flag=value".to_string()]);
}

#[test]
fn render_passes_unknown_placeholder_through() {
    let v = vals("T", "K", "u", "d");
    let args = render_template("run $unknown", &v).unwrap();
    assert_eq!(args, vec!["run".to_string(), "$unknown".to_string()]);
}

#[test]
fn render_does_not_resubstitute_inserted_values() {
    // A substituted value is never rescanned: a title that spells another
    // placeholder stays as it is.
    let v = vals("$oauth_token", "secret", "u", "d");
    let args = render_template("run $title", &v).unwrap();
    assert_eq!(args, vec!["run".to_string(), "$oauth_token".to_string()]);
}

#[test]
fn render_substitutes_inside_quoted_token() {
    let v = vals("My Stream", "", "name", "");
    let args = render_template("mpv \"$title of $broadcaster_username\"", &v).unwrap();
    assert_eq!(args, vec!["mpv".to_string(), "My Stream of name".to_string()]);
}

#[test]
fn render_rejects_unbalanced_quotes() {
    let v = vals("", "", "", "");
    assert_eq!(render_template("mpv \"oops", &v), Err(ConfigError::UnbalancedQuotes));
}
