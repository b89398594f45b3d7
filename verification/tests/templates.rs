use web_pages::fields::Fields;
use web_pages::template::{RenderError, Template};

fn fields(pairs: &[(&str, &str)]) -> Fields {
    let mut fields = Fields::new();
    for (name, value) in pairs {
        fields.insert(name, value);
    }
    fields
}

fn render(src: &str, pairs: &[(&str, &str)]) -> Result<String, RenderError> {
    let template = Template::parse(src.as_bytes())?;
    let page = template.render(&fields(pairs))?;
    Ok(String::from_utf8(page).unwrap())
}

#[test]
fn text_without_tags_is_copied() {
    assert_eq!(render("<html>plain</html>", &[]), Ok("<html>plain</html>".to_string()));
}

#[test]
fn empty_template_renders_empty_page() {
    assert_eq!(render("", &[]), Ok(String::new()));
}

#[test]
fn slot_is_filled_with_its_field() {
    assert_eq!(
        render("<h1><%= title %></h1>", &[("title", "Hello")]),
        Ok("<h1>Hello</h1>".to_string())
    );
}

#[test]
fn slots_and_text_keep_their_order() {
    assert_eq!(
        render("a<%= x %>b<%= y %>c<%= x %>", &[("x", "1"), ("y", "2")]),
        Ok("a1b2c1".to_string())
    );
}

#[test]
fn white_space_around_a_name_is_optional() {
    let pairs = [("name", "v")];
    assert_eq!(render("<%=name%>", &pairs), Ok("v".to_string()));
    assert_eq!(render("<%= \t\r\n name \n %>", &pairs), Ok("v".to_string()));
    assert_eq!(render("<%-name %>", &pairs), Ok("v".to_string()));
}

#[test]
fn escaped_slot_escapes_html() {
    assert_eq!(
        render("<p><%= v %></p>", &[("v", "<b>\"Tom\" & 'Jerry'</b>")]),
        Ok("<p>&lt;b&gt;&quot;Tom&quot; &amp; &#039;Jerry&#039;&lt;/b&gt;</p>".to_string())
    );
}

#[test]
fn escaped_slot_escapes_long_values() {
    let value = "0123456789<0123456789>0123456789&0123456789";
    assert_eq!(
        render("<%= v %>", &[("v", value)]),
        Ok("0123456789&lt;0123456789&gt;0123456789&amp;0123456789".to_string())
    );
}

#[test]
fn escaped_slot_keeps_other_bytes() {
    assert_eq!(
        render("<%= v %>", &[("v", "caf\u{e9} \u{6f22}\u{5b57} !#$%()*+,-./:;=?@[]^_`{|}~")]),
        Ok("caf\u{e9} \u{6f22}\u{5b57} !#$%()*+,-./:;=?@[]^_`{|}~".to_string())
    );
}

#[test]
fn raw_slot_inserts_the_value_as_it_is() {
    assert_eq!(
        render("<p><%- v %></p>", &[("v", "<b>bold & \"quoted\"</b>")]),
        Ok("<p><b>bold & \"quoted\"</b></p>".to_string())
    );
}

#[test]
fn later_value_replaces_earlier() {
    assert_eq!(render("<%= a %>", &[("a", "first"), ("a", "second")]), Ok("second".to_string()));
}

#[test]
fn fields_get_finds_what_was_inserted() {
    let fields = fields(&[("title", "T"), ("keywords", "K")]);
    assert_eq!(fields.get(b"title"), Some("T"));
    assert_eq!(fields.get(b"keywords"), Some("K"));
    assert_eq!(fields.get(b"description"), None);
    assert_eq!(Fields::new().get(b"title"), None);
}

#[test]
fn unused_fields_are_ignored() {
    assert_eq!(render("x", &[("a", "1"), ("b", "2")]), Ok("x".to_string()));
}

#[test]
fn missing_field_is_reported_with_its_piece() {
    assert_eq!(
        render("a<%= x %>b<%= y %>", &[("x", "1")]),
        Err(RenderError::MissingField { slot: 3 })
    );
    assert_eq!(render("<%= y %>", &[]), Err(RenderError::MissingField { slot: 0 }));
}

#[test]
fn first_missing_field_is_the_one_reported() {
    assert_eq!(
        render("<%= a %><%= b %><%= c %>", &[("a", "1")]),
        Err(RenderError::MissingField { slot: 1 })
    );
}

#[test]
fn validate_agrees_with_render() {
    let template = Template::parse(b"a<%= x %>b<%- y %>").unwrap();
    assert_eq!(template.validate(&fields(&[("x", "1"), ("y", "2")])), Ok(()));
    assert_eq!(
        template.validate(&fields(&[("x", "1")])),
        Err(RenderError::MissingField { slot: 3 })
    );
    assert_eq!(template.validate(&fields(&[])), Err(RenderError::MissingField { slot: 1 }));
}

#[test]
fn unclosed_tag_is_malformed() {
    assert_eq!(Template::parse(b"abc<%= title"), Err(RenderError::Malformed { offset: 3 }));
    assert_eq!(Template::parse(b"<%"), Err(RenderError::Malformed { offset: 0 }));
    assert_eq!(Template::parse(b"<%>"), Err(RenderError::Malformed { offset: 0 }));
    assert_eq!(Template::parse(b"<%= a %>x<%= b %"), Err(RenderError::Malformed { offset: 9 }));
}

#[test]
fn tag_that_is_no_slot_is_malformed() {
    assert_eq!(Template::parse(b"<% title %>"), Err(RenderError::Malformed { offset: 0 }));
    assert_eq!(Template::parse(b"<%%>"), Err(RenderError::Malformed { offset: 0 }));
    assert_eq!(Template::parse(b"<%=%>"), Err(RenderError::Malformed { offset: 0 }));
    assert_eq!(Template::parse(b"<%=   %>"), Err(RenderError::Malformed { offset: 0 }));
    assert_eq!(Template::parse(b"ab<%# note %>"), Err(RenderError::Malformed { offset: 2 }));
    assert_eq!(Template::parse(b"<% = a %>"), Err(RenderError::Malformed { offset: 0 }));
}

#[test]
fn name_that_is_no_name_is_malformed() {
    assert_eq!(Template::parse(b"<%= 1abc %>"), Err(RenderError::Malformed { offset: 0 }));
    assert_eq!(Template::parse(b"<%= a b %>"), Err(RenderError::Malformed { offset: 0 }));
    assert_eq!(Template::parse(b"<%= a.b %>"), Err(RenderError::Malformed { offset: 0 }));
    assert_eq!(Template::parse(b"<%= a-b %>"), Err(RenderError::Malformed { offset: 0 }));
    assert_eq!(Template::parse(b"xy<%= <% a %>"), Err(RenderError::Malformed { offset: 2 }));
}

#[test]
fn names_may_hold_letters_digits_and_underscores() {
    assert_eq!(
        render("<%= _a1 %><%= Status_Code2 %>", &[("_a1", "x"), ("Status_Code2", "y")]),
        Ok("xy".to_string())
    );
}

#[test]
fn lone_delimiters_are_text() {
    assert_eq!(render("a < b % c > d %> e", &[]), Ok("a < b % c > d %> e".to_string()));
    assert_eq!(render("<", &[]), Ok("<".to_string()));
    assert_eq!(render("100%", &[]), Ok("100%".to_string()));
}

#[test]
fn tag_ends_at_the_first_closing() {
    assert_eq!(render("<%= a %>%>", &[("a", "1")]), Ok("1%>".to_string()));
}

#[test]
fn malformed_comes_before_missing() {
    assert_eq!(render("<%= a %><%", &[]), Err(RenderError::Malformed { offset: 8 }));
}
