//! The YAML template parser.
//!
//! The template's top level is a mapping from resource-kind name to a list
//! of per-kind field mappings. Loading the document is the YAML library's
//! work, behind a trusted seam that reduces it to the [`Template`] model:
//! the kinds in order, each with its list of entries, each entry with its
//! named scalar fields. Everything the grammar decides — which kinds are
//! recognized, which fields a guest requires, what is fatal and what is
//! skipped with a warning — is verified code over that model.
//!
//! The asymmetry of the grammar is deliberate and preserved: a malformed
//! document or a missing/mistyped required field on a recognized kind is
//! fatal, while an unrecognized resource kind is skipped so that templates
//! can mix kinds added in different schema versions.

use vstd::prelude::*;

use crate::ParseError;
use crate::Parser;
use crate::Resource;
use crate::ResourceSpec;
use crate::str_eq;

verus! {

/// One scalar field value of a template entry, reduced to what the
/// grammar reads: a string, an integer, or anything else.
#[derive(Debug, PartialEq, Eq)]
pub enum FieldValue {
    Str(String),
    Int(i64),
    Other,
}

/// The mathematical value of a [`FieldValue`].
pub enum FieldValueSpec {
    Str(Seq<char>),
    Int(i64),
    Other,
}

impl View for FieldValue {
    type V = FieldValueSpec;

    open spec fn view(&self) -> FieldValueSpec {
        match self {
            FieldValue::Str(s) => FieldValueSpec::Str(s@),
            FieldValue::Int(i) => FieldValueSpec::Int(*i),
            FieldValue::Other => FieldValueSpec::Other,
        }
    }
}

/// One named field of a template entry.
#[derive(Debug, PartialEq, Eq)]
pub struct TemplateField {
    pub key: String,
    pub value: FieldValue,
}

/// The mathematical value of a [`TemplateField`].
pub struct FieldSpec {
    pub key: Seq<char>,
    pub value: FieldValueSpec,
}

impl View for TemplateField {
    type V = FieldSpec;

    open spec fn view(&self) -> FieldSpec {
        FieldSpec { key: self.key@, value: self.value@ }
    }
}

/// One entry of a resource-kind list: its named fields, in document
/// order. An entry that is not a field mapping has no fields, so every
/// required-field lookup on it misses.
#[derive(Debug, PartialEq, Eq)]
pub struct TemplateEntry {
    pub fields: Vec<TemplateField>,
}

/// The mathematical value of a [`TemplateEntry`].
pub struct EntrySpec {
    pub fields: Seq<FieldSpec>,
}

impl View for TemplateEntry {
    type V = EntrySpec;

    open spec fn view(&self) -> EntrySpec {
        EntrySpec { fields: self.fields@.map_values(|f: TemplateField| f@) }
    }
}

/// What stands under one top-level key: a list of entries, or any other
/// document shape.
#[derive(Debug, PartialEq, Eq)]
pub enum SectionBody {
    List(Vec<TemplateEntry>),
    Other,
}

/// The mathematical value of a [`SectionBody`].
pub enum BodySpec {
    List(Seq<EntrySpec>),
    Other,
}

impl View for SectionBody {
    type V = BodySpec;

    open spec fn view(&self) -> BodySpec {
        match self {
            SectionBody::List(entries) => BodySpec::List(
                entries@.map_values(|e: TemplateEntry| e@),
            ),
            SectionBody::Other => BodySpec::Other,
        }
    }
}

/// One top-level section of the template: a resource-kind name and what
/// stands under it.
#[derive(Debug, PartialEq, Eq)]
pub struct TemplateSection {
    pub kind: String,
    pub body: SectionBody,
}

/// The mathematical value of a [`TemplateSection`].
pub struct SectionSpec {
    pub kind: Seq<char>,
    pub body: BodySpec,
}

impl View for TemplateSection {
    type V = SectionSpec;

    open spec fn view(&self) -> SectionSpec {
        SectionSpec { kind: self.kind@, body: self.body@ }
    }
}

/// A template document reduced to what the grammar reads: its top-level
/// sections in document order.
#[derive(Debug, PartialEq, Eq)]
pub struct Template {
    pub sections: Vec<TemplateSection>,
}

/// The mathematical value of a [`Template`].
pub struct TemplateSpec {
    pub sections: Seq<SectionSpec>,
}

impl View for Template {
    type V = TemplateSpec;

    open spec fn view(&self) -> TemplateSpec {
        TemplateSpec { sections: self.sections@.map_values(|s: TemplateSection| s@) }
    }
}

/// The value of the first field named `key` at or after position `i`, if
/// any.
pub open spec fn field_lookup_from(fields: Seq<FieldSpec>, key: Seq<char>, i: int) -> Option<
    FieldValueSpec,
>
    decreases fields.len() - i,
{
    if i < 0 || i >= fields.len() {
        None
    } else if fields[i].key == key {
        Some(fields[i].value)
    } else {
        field_lookup_from(fields, key, i + 1)
    }
}

/// The value of the first field named `key`, if any.
pub open spec fn field_lookup(fields: Seq<FieldSpec>, key: Seq<char>) -> Option<FieldValueSpec> {
    field_lookup_from(fields, key, 0)
}

/// What one guest entry yields: a guest resource when `name` is a string
/// and `memory` and `vcpus` are positive integers in range, and a fatal
/// missing-field error otherwise.
pub open spec fn spec_guest(e: EntrySpec) -> Result<ResourceSpec, ParseError> {
    match (
        field_lookup(e.fields, "name"@),
        field_lookup(e.fields, "memory"@),
        field_lookup(e.fields, "vcpus"@),
    ) {
        (
            Some(FieldValueSpec::Str(name)),
            Some(FieldValueSpec::Int(memory)),
            Some(FieldValueSpec::Int(vcpus)),
        ) => {
            if 1 <= memory && 1 <= vcpus && vcpus <= u32::MAX as i64 {
                Ok(
                    ResourceSpec::Guest {
                        name: name,
                        memory: memory as u64,
                        vcpus: vcpus as u32,
                    },
                )
            } else {
                Err(ParseError::MissingField)
            }
        },
        _ => Err(ParseError::MissingField),
    }
}

/// What the guest entries at and after position `i` yield, in order; the
/// first fatal entry error wins.
pub open spec fn spec_guests_from(entries: Seq<EntrySpec>, i: int) -> Result<
    Seq<ResourceSpec>,
    ParseError,
>
    decreases entries.len() - i,
{
    if i < 0 || i >= entries.len() {
        Ok(Seq::<ResourceSpec>::empty())
    } else {
        match spec_guest(entries[i]) {
            Err(e) => Err(e),
            Ok(g) => match spec_guests_from(entries, i + 1) {
                Err(e) => Err(e),
                Ok(rest) => Ok(seq![g] + rest),
            },
        }
    }
}

/// What one top-level section yields. The `guest` kind is recognized:
/// its body must be a list, and each entry must carry the required
/// fields. Any other kind is skipped — it yields no resources and no
/// error, so kinds from other schema versions never break a template.
pub open spec fn spec_section(s: SectionSpec) -> Result<Seq<ResourceSpec>, ParseError> {
    if s.kind == "guest"@ {
        match s.body {
            BodySpec::List(entries) => spec_guests_from(entries, 0),
            BodySpec::Other => Err(ParseError::Malformed),
        }
    } else {
        Ok(Seq::<ResourceSpec>::empty())
    }
}

/// What the sections at and after position `i` yield, concatenated in
/// document order; the first fatal section error wins.
pub open spec fn spec_sections_from(sections: Seq<SectionSpec>, i: int) -> Result<
    Seq<ResourceSpec>,
    ParseError,
>
    decreases sections.len() - i,
{
    if i < 0 || i >= sections.len() {
        Ok(Seq::<ResourceSpec>::empty())
    } else {
        match spec_section(sections[i]) {
            Err(e) => Err(e),
            Ok(rs) => match spec_sections_from(sections, i + 1) {
                Err(e) => Err(e),
                Ok(rest) => Ok(rs + rest),
            },
        }
    }
}

/// The ordered resource sequence a template yields, or the first fatal
/// error of the document.
pub open spec fn spec_parse(t: TemplateSpec) -> Result<Seq<ResourceSpec>, ParseError> {
    spec_sections_from(t.sections, 0)
}

proof fn lemma_sections_suffix_shift(
    sections: Seq<SectionSpec>,
    s: SectionSpec,
    pos: int,
    k: int,
)
    requires
        0 <= pos <= sections.len(),
        pos <= k <= sections.len(),
    ensures
        spec_sections_from(sections.insert(pos, s), k + 1) == spec_sections_from(sections, k),
    decreases sections.len() - k,
{
    sections.insert_ensures(pos, s);
    let extended = sections.insert(pos, s);
    if k < sections.len() {
        assert(extended[k + 1] == sections[k]);
        lemma_sections_suffix_shift(sections, s, pos, k + 1);
    }
}

proof fn lemma_sections_prefix_same(sections: Seq<SectionSpec>, s: SectionSpec, pos: int, j: int)
    requires
        0 <= j <= pos <= sections.len(),
        spec_section(s) == Ok::<Seq<ResourceSpec>, ParseError>(Seq::<ResourceSpec>::empty()),
    ensures
        spec_sections_from(sections.insert(pos, s), j) == spec_sections_from(sections, j),
    decreases pos - j,
{
    sections.insert_ensures(pos, s);
    let extended = sections.insert(pos, s);
    if j == pos {
        lemma_sections_suffix_shift(sections, s, pos, j);
        match spec_sections_from(sections, j) {
            Ok(rest) => {
                assert(Seq::<ResourceSpec>::empty() + rest =~= rest);
            },
            Err(_) => {},
        }
    } else {
        assert(extended[j] == sections[j]);
        lemma_sections_prefix_same(sections, s, pos, j + 1);
    }
}

/// An unrecognized top-level kind never prevents the recognized kinds
/// from being parsed: inserting a section of an unrecognized kind
/// anywhere in a template changes neither the parse outcome nor the
/// resources the other sections yield.
pub proof fn lemma_unknown_kind_transparent(t: TemplateSpec, pos: int, s: SectionSpec)
    requires
        0 <= pos <= t.sections.len(),
        s.kind != "guest"@,
    ensures
        spec_parse(TemplateSpec { sections: t.sections.insert(pos, s) }) == spec_parse(t),
{
    assert(spec_section(s) == Ok::<Seq<ResourceSpec>, ParseError>(Seq::<ResourceSpec>::empty()));
    lemma_sections_prefix_same(t.sections, s, pos, 0);
}

proof fn lemma_guests_err(entries: Seq<EntrySpec>, j: int, k: int)
    requires
        0 <= j <= k < entries.len(),
        spec_guest(entries[k]) is Err,
    ensures
        spec_guests_from(entries, j) is Err,
    decreases k - j,
{
    if j < k {
        lemma_guests_err(entries, j + 1, k);
    }
}

proof fn lemma_sections_err(sections: Seq<SectionSpec>, j: int, k: int)
    requires
        0 <= j <= k < sections.len(),
        spec_section(sections[k]) is Err,
    ensures
        spec_sections_from(sections, j) is Err,
    decreases k - j,
{
    if j < k {
        lemma_sections_err(sections, j + 1, k);
    }
}

/// A missing or mistyped required field on a recognized kind is fatal to
/// the whole parse: whatever else the template holds, a guest section
/// with an entry that yields no guest makes the template yield an error
/// rather than a sequence, so the pass reports it before any connection
/// is opened.
pub proof fn lemma_missing_field_fatal(t: TemplateSpec, i: int, entries: Seq<EntrySpec>, k: int)
    requires
        0 <= i < t.sections.len(),
        t.sections[i].kind == "guest"@,
        t.sections[i].body == BodySpec::List(entries),
        0 <= k < entries.len(),
        spec_guest(entries[k]) is Err,
    ensures
        spec_parse(t) is Err,
{
    lemma_guests_err(entries, 0, k);
    assert(spec_section(t.sections[i]) is Err);
    lemma_sections_err(t.sections, 0, i);
}

/// Find the first field named `key` at or after position `i`.
fn field_get_from<'a>(fields: &'a Vec<TemplateField>, key: &str, i: usize) -> (r: Option<
    &'a FieldValue,
>)
    requires
        i <= fields@.len(),
    ensures
        (match r {
            Some(v) => field_lookup_from(
                fields@.map_values(|f: TemplateField| f@),
                key@,
                i as int,
            ) == Some(v@),
            None => field_lookup_from(
                fields@.map_values(|f: TemplateField| f@),
                key@,
                i as int,
            ) is None,
        }),
    decreases fields@.len() - i,
{
    if i >= fields.len() {
        None
    } else if str_eq(fields[i].key.as_str(), key) {
        Some(&fields[i].value)
    } else {
        field_get_from(fields, key, i + 1)
    }
}

/// Find the first field named `key` of an entry.
fn field_get<'a>(fields: &'a Vec<TemplateField>, key: &str) -> (r: Option<&'a FieldValue>)
    ensures
        (match r {
            Some(v) => field_lookup(fields@.map_values(|f: TemplateField| f@), key@) == Some(v@),
            None => field_lookup(fields@.map_values(|f: TemplateField| f@), key@) is None,
        }),
{
    field_get_from(fields, key, 0)
}

/// Turn one guest entry into a guest resource, or report the fatal
/// missing-field error.
pub fn parse_guest(e: &TemplateEntry) -> (r: Result<Resource, ParseError>)
    ensures
        (match (r, spec_guest(e@)) {
            (Ok(g), Ok(sg)) => g@ == sg,
            (Err(e1), Err(e2)) => e1 == e2,
            _ => false,
        }),
{
    let name = field_get(&e.fields, "name");
    let memory = field_get(&e.fields, "memory");
    let vcpus = field_get(&e.fields, "vcpus");
    match (name, memory, vcpus) {
        (Some(FieldValue::Str(name)), Some(FieldValue::Int(memory)), Some(
            FieldValue::Int(vcpus),
        )) => {
            if 1 <= *memory && 1 <= *vcpus && *vcpus <= u32::MAX as i64 {
                Ok(
                    Resource::Guest {
                        name: name.clone(),
                        memory: *memory as u64,
                        vcpus: *vcpus as u32,
                    },
                )
            } else {
                Err(ParseError::MissingField)
            }
        },
        _ => Err(ParseError::MissingField),
    }
}

/// Turn the guest entries at and after position `i` into resources.
fn parse_guests_from(entries: &Vec<TemplateEntry>, i: usize) -> (r: Result<
    Vec<Resource>,
    ParseError,
>)
    requires
        i <= entries@.len(),
    ensures
        (match (r, spec_guests_from(entries@.map_values(|e: TemplateEntry| e@), i as int)) {
            (Ok(v), Ok(s)) => v@.map_values(|x: Resource| x@) == s,
            (Err(e1), Err(e2)) => e1 == e2,
            _ => false,
        }),
    decreases entries@.len() - i,
{
    if i >= entries.len() {
        let out: Vec<Resource> = Vec::new();
        proof {
            assert(out@.map_values(|x: Resource| x@) =~= Seq::<ResourceSpec>::empty());
        }
        Ok(out)
    } else {
        match parse_guest(&entries[i]) {
            Err(e) => Err(e),
            Ok(g) => match parse_guests_from(entries, i + 1) {
                Err(e) => Err(e),
                Ok(rest) => {
                    let ghost gv: ResourceSpec = g@;
                    let ghost restv: Seq<ResourceSpec> = rest@.map_values(|x: Resource| x@);
                    let mut out: Vec<Resource> = Vec::new();
                    out.push(g);
                    let mut tail = rest;
                    out.append(&mut tail);
                    proof {
                        assert(out@.map_values(|x: Resource| x@) =~= seq![gv] + restv);
                    }
                    Ok(out)
                },
            },
        }
    }
}

/// Turn one top-level section into its resources: the entries of a
/// recognized kind, nothing for an unrecognized kind.
pub fn parse_section(s: &TemplateSection) -> (r: Result<Vec<Resource>, ParseError>)
    ensures
        (match (r, spec_section(s@)) {
            (Ok(v), Ok(rs)) => v@.map_values(|x: Resource| x@) == rs,
            (Err(e1), Err(e2)) => e1 == e2,
            _ => false,
        }),
{
    if str_eq(s.kind.as_str(), "guest") {
        match &s.body {
            SectionBody::List(entries) => parse_guests_from(entries, 0),
            SectionBody::Other => Err(ParseError::Malformed),
        }
    } else {
        let out: Vec<Resource> = Vec::new();
        proof {
            assert(out@.map_values(|x: Resource| x@) =~= Seq::<ResourceSpec>::empty());
        }
        Ok(out)
    }
}

/// Turn the sections at and after position `i` into resources.
fn parse_sections_from(sections: &Vec<TemplateSection>, i: usize) -> (r: Result<
    Vec<Resource>,
    ParseError,
>)
    requires
        i <= sections@.len(),
    ensures
        (match (r, spec_sections_from(sections@.map_values(|s: TemplateSection| s@), i as int)) {
            (Ok(v), Ok(s)) => v@.map_values(|x: Resource| x@) == s,
            (Err(e1), Err(e2)) => e1 == e2,
            _ => false,
        }),
    decreases sections@.len() - i,
{
    if i >= sections.len() {
        let out: Vec<Resource> = Vec::new();
        proof {
            assert(out@.map_values(|x: Resource| x@) =~= Seq::<ResourceSpec>::empty());
        }
        Ok(out)
    } else {
        match parse_section(&sections[i]) {
            Err(e) => Err(e),
            Ok(head) => match parse_sections_from(sections, i + 1) {
                Err(e) => Err(e),
                Ok(rest) => {
                    let ghost headv: Seq<ResourceSpec> = head@.map_values(|x: Resource| x@);
                    let ghost restv: Seq<ResourceSpec> = rest@.map_values(|x: Resource| x@);
                    let mut out = head;
                    let mut tail = rest;
                    out.append(&mut tail);
                    proof {
                        assert(out@.map_values(|x: Resource| x@) =~= headv + restv);
                    }
                    Ok(out)
                },
            },
        }
    }
}

/// Turn a whole template into its ordered resource sequence, or report
/// the document's first fatal error.
pub fn parse_template(t: &Template) -> (r: Result<Vec<Resource>, ParseError>)
    ensures
        (match (r, spec_parse(t@)) {
            (Ok(v), Ok(s)) => v@.map_values(|x: Resource| x@) == s,
            (Err(e1), Err(e2)) => e1 == e2,
            _ => false,
        }),
{
    parse_sections_from(&t.sections, 0)
}

/// The first document of the template source, reduced to the fields this
/// crate reads, or `None` where the source is not such a document. The
/// YAML grammar itself is the YAML library's; this name stands for its
/// outcome, which is a function of the source text alone.
pub uninterp spec fn yaml_template(s: Seq<char>) -> Option<TemplateSpec>;

#[verifier::external_type_specification]
#[verifier::external_body]
pub struct ExYaml(yaml_rust::Yaml);

/// Reduces one field value to the scalars the grammar reads. Relies on
/// the variants of yaml_rust::Yaml: strings and integers are kept,
/// anything else can satisfy no required field.
#[verifier::external_body]
fn field_model(value: yaml_rust::Yaml) -> FieldValue {
    match value {
        yaml_rust::Yaml::String(s) => FieldValue::Str(s),
        yaml_rust::Yaml::Integer(i) => FieldValue::Int(i),
        _ => FieldValue::Other,
    }
}

/// Reduces one entry to its named fields. Relies on yaml_rust's hash
/// (insertion-ordered, unique keys) and on its by-string indexing, which
/// only ever finds string keys: an entry that is no field mapping, and a
/// field under a non-string key, are unreachable through the lookups the
/// grammar makes, so they reduce to an entry those lookups miss.
#[verifier::external_body]
fn entry_model(item: yaml_rust::Yaml) -> TemplateEntry {
    let mut fields: Vec<TemplateField> = Vec::new();
    if let yaml_rust::Yaml::Hash(hash) = item {
        for (key, value) in hash {
            if let yaml_rust::Yaml::String(k) = key {
                fields.push(TemplateField { key: k, value: field_model(value) });
            }
        }
    }
    TemplateEntry { fields }
}

/// Reduces what stands under one top-level key. Relies on the variants
/// of yaml_rust::Yaml: only an array is a list of entries.
#[verifier::external_body]
fn body_model(value: yaml_rust::Yaml) -> SectionBody {
    match value {
        yaml_rust::Yaml::Array(items) => {
            let mut entries: Vec<TemplateEntry> = Vec::new();
            for item in items {
                entries.push(entry_model(item));
            }
            SectionBody::List(entries)
        },
        _ => SectionBody::Other,
    }
}

/// Reduces one loaded document to the template model. Relies on
/// yaml_rust's hash keeping insertion order: the top level must be a
/// mapping with string keys, in document order.
#[verifier::external_body]
fn doc_model(doc: yaml_rust::Yaml) -> Result<Template, ParseError> {
    let hash = match doc {
        yaml_rust::Yaml::Hash(h) => h,
        _ => return Err(ParseError::Malformed),
    };
    let mut sections: Vec<TemplateSection> = Vec::new();
    for (key, value) in hash {
        match key {
            yaml_rust::Yaml::String(kind) => sections.push(
                TemplateSection { kind, body: body_model(value) },
            ),
            _ => return Err(ParseError::Malformed),
        }
    }
    Ok(Template { sections })
}

/// Load the template source and reduce its first document to the model.
/// Relies on yaml_rust::YamlLoader::load_from_str: the loaded documents
/// are a function of the source text alone, so the reduced first
/// document is the one `yaml_template` names; a scan error, an empty
/// source, a top level that is no mapping, and a non-string top-level
/// key are all malformed.
#[verifier::external_body]
fn load_template(source: &str) -> (r: Result<Template, ParseError>)
    ensures
        (r is Ok) <==> (yaml_template(source@) is Some),
        r matches Ok(t) ==> Some(t@) == yaml_template(source@),
        r matches Err(e) ==> e == ParseError::Malformed,
{
    let docs = match yaml_rust::YamlLoader::load_from_str(source) {
        Ok(docs) => docs,
        Err(_) => return Err(ParseError::Malformed),
    };
    match docs.into_iter().next() {
        Some(doc) => doc_model(doc),
        None => Err(ParseError::Malformed),
    }
}

/// Parsing is deterministic: what a YAML template yields — the outcome,
/// the sequence, the error — is a function of the source text alone, so
/// parsing an unchanged template twice yields the same sequence.
pub proof fn lemma_parse_deterministic(p: YamlParser, q: YamlParser)
    requires
        p.template@ == q.template@,
    ensures
        p.parse_ok() == q.parse_ok(),
        p.parse_ok() ==> p.resources() == q.resources(),
        !p.parse_ok() ==> p.parse_err() == q.parse_err(),
{
}

/// The parser for YAML templates: it holds the template source text and
/// owns all format-specific validation.
#[derive(Debug, PartialEq, Eq)]
pub struct YamlParser {
    pub template: String,
}

impl Parser for YamlParser {
    open spec fn parse_ok(&self) -> bool {
        match yaml_template(self.template@) {
            Some(t) => spec_parse(t) is Ok,
            None => false,
        }
    }

    open spec fn resources(&self) -> Seq<ResourceSpec> {
        spec_parse(yaml_template(self.template@).unwrap())->Ok_0
    }

    open spec fn parse_err(&self) -> ParseError {
        match yaml_template(self.template@) {
            None => ParseError::Malformed,
            Some(t) => match spec_parse(t) {
                Err(e) => e,
                Ok(_) => ParseError::Malformed,
            },
        }
    }

    fn parse(&self) -> (r: Result<Vec<Resource>, ParseError>) {
        match load_template(self.template.as_str()) {
            Ok(t) => parse_template(&t),
            Err(e) => Err(e),
        }
    }
}

} // verus!
