use verne::Parser;
use verne::ParseError;
use verne::Resource;
use verne::yaml::FieldValue;
use verne::yaml::SectionBody;
use verne::yaml::Template;
use verne::yaml::TemplateEntry;
use verne::yaml::TemplateField;
use verne::yaml::TemplateSection;
use verne::yaml::YamlParser;
use verne::yaml::parse_guest;
use verne::yaml::parse_section;
use verne::yaml::parse_template;

fn guest(name: &str, memory: u64, vcpus: u32) -> Resource {
    Resource::Guest { name: String::from(name), memory, vcpus }
}

#[test]
fn one_guest_is_parsed() {
    let parser = YamlParser {
        template: String::from("guest:\n  - name: a\n    memory: 512\n    vcpus: 1\n"),
    };
    let parsed = parser.parse().unwrap();
    assert_eq!(parsed, vec![guest("a", 512, 1)]);
}

#[test]
fn unknown_kind_is_skipped() {
    let parser = YamlParser {
        template: String::from(
            "guest:\n  - name: a\n    memory: 512\n    vcpus: 1\nunknownkind:\n  - foo: 1\n",
        ),
    };
    let parsed = parser.parse().unwrap();
    assert_eq!(parsed, vec![guest("a", 512, 1)]);
}

#[test]
fn unknown_kind_alone_yields_nothing() {
    let parser = YamlParser {
        template: String::from("unknownkind:\n  - foo: 1\n"),
    };
    let parsed = parser.parse().unwrap();
    assert_eq!(parsed, Vec::<Resource>::new());
}

#[test]
fn guests_keep_template_order() {
    let parser = YamlParser {
        template: String::from(
            "guest:\n  - name: a\n    memory: 512\n    vcpus: 1\n  - name: b\n    memory: 1024\n    vcpus: 2\n",
        ),
    };
    let parsed = parser.parse().unwrap();
    assert_eq!(parsed, vec![guest("a", 512, 1), guest("b", 1024, 2)]);
}

#[test]
fn parsing_twice_yields_the_same_sequence() {
    let parser = YamlParser {
        template: String::from(
            "guest:\n  - name: a\n    memory: 512\n    vcpus: 1\n  - name: b\n    memory: 1024\n    vcpus: 2\n",
        ),
    };
    let first = parser.parse().unwrap();
    let second = parser.parse().unwrap();
    assert_eq!(first, second);
}

#[test]
fn missing_memory_is_fatal() {
    let parser = YamlParser {
        template: String::from("guest:\n  - name: a\n    vcpus: 1\n"),
    };
    assert_eq!(parser.parse(), Err(ParseError::MissingField));
}

#[test]
fn mistyped_memory_is_fatal() {
    let parser = YamlParser {
        template: String::from("guest:\n  - name: a\n    memory: lots\n    vcpus: 1\n"),
    };
    assert_eq!(parser.parse(), Err(ParseError::MissingField));
}

#[test]
fn missing_field_wins_over_later_guests() {
    let parser = YamlParser {
        template: String::from(
            "guest:\n  - name: a\n    vcpus: 1\n  - name: b\n    memory: 1024\n    vcpus: 2\n",
        ),
    };
    assert_eq!(parser.parse(), Err(ParseError::MissingField));
}

#[test]
fn empty_source_is_malformed() {
    let parser = YamlParser { template: String::from("") };
    assert_eq!(parser.parse(), Err(ParseError::Malformed));
}

#[test]
fn unparseable_source_is_malformed() {
    let parser = YamlParser { template: String::from("guest: [unclosed\n  - name\n") };
    assert_eq!(parser.parse(), Err(ParseError::Malformed));
}

#[test]
fn top_level_list_is_malformed() {
    let parser = YamlParser { template: String::from("- name: a\n") };
    assert_eq!(parser.parse(), Err(ParseError::Malformed));
}

#[test]
fn guest_body_that_is_no_list_is_malformed() {
    let parser = YamlParser { template: String::from("guest: 3\n") };
    assert_eq!(parser.parse(), Err(ParseError::Malformed));
}

fn guest_entry(name: &str, memory: i64, vcpus: i64) -> TemplateEntry {
    TemplateEntry {
        fields: vec![
            TemplateField { key: String::from("name"), value: FieldValue::Str(String::from(name)) },
            TemplateField { key: String::from("memory"), value: FieldValue::Int(memory) },
            TemplateField { key: String::from("vcpus"), value: FieldValue::Int(vcpus) },
        ],
    }
}

#[test]
fn model_template_is_parsed() {
    let template = Template {
        sections: vec![
            TemplateSection {
                kind: String::from("guest"),
                body: SectionBody::List(vec![guest_entry("a", 512, 1), guest_entry("b", 256, 2)]),
            },
            TemplateSection { kind: String::from("futurekind"), body: SectionBody::Other },
        ],
    };
    let parsed = parse_template(&template).unwrap();
    assert_eq!(parsed, vec![guest("a", 512, 1), guest("b", 256, 2)]);
}

#[test]
fn nonpositive_memory_is_rejected() {
    assert_eq!(parse_guest(&guest_entry("a", 0, 1)), Err(ParseError::MissingField));
    assert_eq!(parse_guest(&guest_entry("a", -512, 1)), Err(ParseError::MissingField));
}

#[test]
fn out_of_range_vcpus_is_rejected() {
    assert_eq!(parse_guest(&guest_entry("a", 512, 0)), Err(ParseError::MissingField));
    assert_eq!(parse_guest(&guest_entry("a", 512, 4294967296)), Err(ParseError::MissingField));
}

#[test]
fn unrecognized_section_yields_nothing() {
    let section = TemplateSection {
        kind: String::from("network"),
        body: SectionBody::List(vec![guest_entry("a", 512, 1)]),
    };
    assert_eq!(parse_section(&section), Ok(Vec::new()));
}
