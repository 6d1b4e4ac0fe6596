//! Config Resolver: from a section's raw fields and the templates to one
//! resolved entry.
use vstd::prelude::*;
use crate::fields::{fmt_of, substitute, FieldMap, Templates};
use crate::text::{contains_str, has_prefix, has_substring, starts_with};

verus! {

/// One tracked artifact, as resolved from its section.
#[derive(Debug)]
pub struct Config {
    /// `api_json` selects the JSON extractor; anything else scrapes HTML.
    pub method: String,
    /// The template the section named, if any.
    pub template: String,
    /// The version recorded for the artifact.
    pub version: Option<String>,
    /// The page (or API endpoint) that holds the download link.
    pub page_url: String,
    /// Selector of the candidate links (CSS or JSON path).
    pub anchor_tag: String,
    /// Pattern that the chosen link must match.
    pub anchor_text: String,
    /// Selector of the version text (CSS or JSON path).
    pub version_tag: Option<String>,
    /// Pattern of the member to take out of an archive.
    pub target_filename_to_extract_from_archive: Option<String>,
    /// Where the artifact is written.
    pub desired_filename: Option<String>,
}

/// The values of a `Config`, as character sequences.
pub struct EntryView {
    pub method: Seq<char>,
    pub template: Seq<char>,
    pub version: Option<Seq<char>>,
    pub page_url: Seq<char>,
    pub anchor_tag: Seq<char>,
    pub anchor_text: Seq<char>,
    pub version_tag: Option<Seq<char>>,
    pub target: Option<Seq<char>>,
    pub desired: Option<Seq<char>>,
}

/// An optional string as an optional character sequence.
pub open spec fn opt_view(o: Option<String>) -> Option<Seq<char>> {
    match o {
        Some(s) => Some(s@),
        None => None,
    }
}

impl View for Config {
    type V = EntryView;

    open spec fn view(&self) -> EntryView {
        EntryView {
            method: self.method@,
            template: self.template@,
            version: opt_view(self.version),
            page_url: self.page_url@,
            anchor_tag: self.anchor_tag@,
            anchor_text: self.anchor_text@,
            version_tag: opt_view(self.version_tag),
            target: opt_view(self.target_filename_to_extract_from_archive),
            desired: opt_view(self.desired_filename),
        }
    }
}

/// The entry with every field empty.
pub open spec fn empty_entry() -> EntryView {
    EntryView {
        method: Seq::empty(),
        template: Seq::empty(),
        version: None,
        page_url: Seq::empty(),
        anchor_tag: Seq::empty(),
        anchor_text: Seq::empty(),
        version_tag: None,
        target: None,
        desired: None,
    }
}

impl Config {
    /// A configuration with every field empty.
    pub fn new() -> (r: Config)
        ensures
            r@ == empty_entry(),
    {
        Config {
            method: String::new(),
            template: String::new(),
            version: None,
            page_url: String::new(),
            anchor_tag: String::new(),
            anchor_text: String::new(),
            version_tag: None,
            target_filename_to_extract_from_archive: None,
            desired_filename: None,
        }
    }
}

/// A field of an entry whose placeholders are substituted.
#[derive(Clone, Copy, Debug, PartialEq, Eq, Structural)]
pub enum Field {
    Method,
    PageUrl,
    AnchorTag,
    AnchorText,
    VersionTag,
    TargetFilename,
    Version,
    DesiredFilename,
}

/// Why a section could not be resolved.
#[derive(Debug)]
pub enum ConfigError {
    /// The section names a template that does not exist.
    TemplateNotFound { name: String },
    /// A field's placeholders could not be substituted; `in_template` tells
    /// whether the field came from the template or from the section.
    Placeholder { field: Field, in_template: bool },
}

/// A `ConfigError` as values.
pub enum ConfigFault {
    TemplateNotFound(Seq<char>),
    Placeholder(Field, bool),
}

/// The values that a `ConfigError` carries.
pub open spec fn fault_of(e: ConfigError) -> ConfigFault {
    match e {
        ConfigError::TemplateNotFound { name } => ConfigFault::TemplateNotFound(name@),
        ConfigError::Placeholder { field, in_template } => ConfigFault::Placeholder(
            field,
            in_template,
        ),
    }
}

/// A resolution result, its entry as values.
pub open spec fn outcome_view(r: Result<Option<Config>, ConfigError>) -> Result<
    Option<EntryView>,
    ConfigFault,
> {
    match r {
        Ok(Some(c)) => Ok(Some(c@)),
        Ok(None) => Ok(None),
        Err(e) => Err(fault_of(e)),
    }
}

/// The field `key` of `fields` with its placeholders filled from `vars`:
/// `Some(None)` when the field is absent, `None` when substitution fails.
pub open spec fn field_value(
    fields: Map<Seq<char>, Seq<char>>,
    key: Seq<char>,
    vars: Map<Seq<char>, Seq<char>>,
) -> Option<Option<Seq<char>>> {
    if fields.contains_key(key) {
        match fmt_of(fields[key], vars) {
            Some(v) => Some(Some(v)),
            None => None,
        }
    } else {
        Some(None)
    }
}

/// `prev`, unless `v` holds a value.
pub open spec fn or_prev(v: Option<Option<Seq<char>>>, prev: Seq<char>) -> Seq<char> {
    match v {
        Some(Some(s)) => s,
        _ => prev,
    }
}

/// The value that `v` holds, if any.
pub open spec fn present(v: Option<Option<Seq<char>>>) -> Option<Seq<char>> {
    match v {
        Some(Some(s)) => Some(s),
        _ => None,
    }
}

/// `base` with the fields of the template that the section names set from
/// it, each with its placeholders filled from the section's fields; a field
/// that the template does not give keeps its value in `base`.
pub open spec fn with_template(
    base: EntryView,
    templates: Map<Seq<char>, Map<Seq<char>, Seq<char>>>,
    vals: Map<Seq<char>, Seq<char>>,
) -> Result<EntryView, ConfigFault> {
    if !vals.contains_key("template"@) {
        Ok(base)
    } else {
        let name = vals["template"@];
        if !templates.contains_key(name) {
            Err(ConfigFault::TemplateNotFound(name))
        } else {
            let t = templates[name];
            let page_url = field_value(t, "page_url"@, vals);
            let anchor_tag = field_value(t, "anchor_tag"@, vals);
            let version_tag = field_value(t, "version_tag"@, vals);
            let method = field_value(t, "method"@, vals);
            if page_url is None {
                Err(ConfigFault::Placeholder(Field::PageUrl, true))
            } else if anchor_tag is None {
                Err(ConfigFault::Placeholder(Field::AnchorTag, true))
            } else if version_tag is None {
                Err(ConfigFault::Placeholder(Field::VersionTag, true))
            } else if method is None {
                Err(ConfigFault::Placeholder(Field::Method, true))
            } else {
                Ok(
                    EntryView {
                        template: name,
                        page_url: or_prev(page_url, base.page_url),
                        anchor_tag: or_prev(anchor_tag, base.anchor_tag),
                        version_tag: match present(version_tag) {
                            Some(v) => Some(v),
                            None => base.version_tag,
                        },
                        method: or_prev(method, base.method),
                        ..base
                    },
                )
            }
        }
    }
}

/// The entry that a section's template gives, before the section's own
/// fields are applied.
pub open spec fn template_entry(
    templates: Map<Seq<char>, Map<Seq<char>, Seq<char>>>,
    vals: Map<Seq<char>, Seq<char>>,
) -> Result<EntryView, ConfigFault> {
    with_template(empty_entry(), templates, vals)
}

/// The section's own fields applied over `base`: `Ok(None)` when the entry
/// has no page to look at.
pub open spec fn section_entry(
    section: Seq<char>,
    base: EntryView,
    vals: Map<Seq<char>, Seq<char>>,
) -> Result<Option<EntryView>, ConfigFault> {
    let page_url = field_value(vals, "page_url"@, vals);
    if page_url is None {
        Err(ConfigFault::Placeholder(Field::PageUrl, false))
    } else if or_prev(page_url, base.page_url).len() == 0 {
        Ok(None)
    } else {
        let anchor_tag = field_value(vals, "anchor_tag"@, vals);
        let anchor_text = field_value(vals, "anchor_text"@, vals);
        let version_tag = field_value(vals, "version_tag"@, vals);
        let target = field_value(vals, "target_filename_to_extract_from_archive"@, vals);
        let version = field_value(vals, "version"@, vals);
        let desired = field_value(vals, "desired_filename"@, vals);
        let method = field_value(vals, "method"@, vals);
        if anchor_tag is None {
            Err(ConfigFault::Placeholder(Field::AnchorTag, false))
        } else if anchor_text is None {
            Err(ConfigFault::Placeholder(Field::AnchorText, false))
        } else if version_tag is None {
            Err(ConfigFault::Placeholder(Field::VersionTag, false))
        } else if target is None {
            Err(ConfigFault::Placeholder(Field::TargetFilename, false))
        } else if version is None {
            Err(ConfigFault::Placeholder(Field::Version, false))
        } else if desired is None {
            Err(ConfigFault::Placeholder(Field::DesiredFilename, false))
        } else if method is None {
            Err(ConfigFault::Placeholder(Field::Method, false))
        } else {
            let member = or_prev(target, section);
            Ok(
                Some(
                    EntryView {
                        method: or_prev(method, base.method),
                        template: base.template,
                        version: present(version),
                        page_url: or_prev(page_url, base.page_url),
                        anchor_tag: or_prev(anchor_tag, base.anchor_tag),
                        anchor_text: or_prev(anchor_text, base.anchor_text),
                        version_tag: match present(version_tag) {
                            Some(v) => Some(v),
                            None => base.version_tag,
                        },
                        target: Some(member),
                        desired: Some(or_prev(desired, member)),
                    },
                ),
            )
        }
    }
}

/// The entry that a section resolves to.
pub open spec fn resolved_entry(
    section: Seq<char>,
    templates: Map<Seq<char>, Map<Seq<char>, Seq<char>>>,
    vals: Map<Seq<char>, Seq<char>>,
) -> Result<Option<EntryView>, ConfigFault> {
    match template_entry(templates, vals) {
        Err(e) => Err(e),
        Ok(base) => section_entry(section, base, vals),
    }
}

/// The field `key` of `fields`, its placeholders filled from `vars`.
fn field(fields: &FieldMap, key: &str, vars: &FieldMap) -> (r: Result<Option<String>, ()>)
    ensures
        r matches Ok(v) ==> field_value(fields@, key@, vars@) == Some(opt_view(v)),
        r is Err ==> field_value(fields@, key@, vars@) is None,
{
    match fields.get(key) {
        None => Ok(None),
        Some(raw) => match substitute(raw.as_str(), vars) {
            Some(v) => Ok(Some(v)),
            None => Err(()),
        },
    }
}

/// Sets the fields of `cf` that the template named by `values` gives. Each
/// `{name}` in a template field is replaced by the section's own `name`; on
/// an error `cf` is left as it was.
fn insert_fields_from_template(cf: &mut Config, templates: &Templates, values: &FieldMap) -> (r:
    Result<(), ConfigError>)
    ensures
        r is Ok <==> with_template(old(cf)@, templates@, values@) is Ok,
        r is Ok ==> with_template(old(cf)@, templates@, values@) == Ok::<EntryView, ConfigFault>(
            final(cf)@,
        ),
        r matches Err(e) ==> with_template(old(cf)@, templates@, values@) == Err::<
            EntryView,
            ConfigFault,
        >(fault_of(e)),
        r is Err ==> final(cf)@ == old(cf)@,
{
    let t = match values.get("template") {
        None => return Ok(()),
        Some(t) => t,
    };
    let fields = match templates.get(t.as_str()) {
        None => return Err(ConfigError::TemplateNotFound { name: t.clone() }),
        Some(f) => f,
    };
    let page_url = field(fields, "page_url", values);
    let anchor_tag = field(fields, "anchor_tag", values);
    let version_tag = field(fields, "version_tag", values);
    let method = field(fields, "method", values);
    let page_url = match page_url {
        Err(_) => return Err(ConfigError::Placeholder { field: Field::PageUrl, in_template: true }),
        Ok(v) => v,
    };
    let anchor_tag = match anchor_tag {
        Err(_) => return Err(
            ConfigError::Placeholder { field: Field::AnchorTag, in_template: true },
        ),
        Ok(v) => v,
    };
    let version_tag = match version_tag {
        Err(_) => return Err(
            ConfigError::Placeholder { field: Field::VersionTag, in_template: true },
        ),
        Ok(v) => v,
    };
    let method = match method {
        Err(_) => return Err(ConfigError::Placeholder { field: Field::Method, in_template: true }),
        Ok(v) => v,
    };
    cf.template = t.clone();
    if let Some(v) = page_url {
        cf.page_url = v;
    }
    if let Some(v) = anchor_tag {
        cf.anchor_tag = v;
    }
    if let Some(v) = version_tag {
        cf.version_tag = Some(v);
    }
    if let Some(v) = method {
        cf.method = v;
    }
    Ok(())
}

/// Resolves a section into its entry: the template's fields first, then the
/// section's own, each with its placeholders filled from the section's
/// fields. The member pattern defaults to the section's name and the desired
/// file name to the member pattern. `Ok(None)`: the section has no page URL
/// and is skipped.
pub fn resolve_section(section: &str, templates: &Templates, values: &FieldMap) -> (r: Result<
    Option<Config>,
    ConfigError,
>)
    ensures
        outcome_view(r) == resolved_entry(section@, templates@, values@),
{
    let mut cf = Config::new();
    match insert_fields_from_template(&mut cf, templates, values) {
        Err(e) => return Err(e),
        Ok(()) => {},
    }
    let ghost base = cf@;
    match field(values, "page_url", values) {
        Err(_) => return Err(ConfigError::Placeholder { field: Field::PageUrl, in_template: false }),
        Ok(Some(v)) => cf.page_url = v,
        Ok(None) => {},
    }
    if cf.page_url.as_str().unicode_len() == 0 {
        return Ok(None);
    }
    let anchor_tag = field(values, "anchor_tag", values);
    let anchor_text = field(values, "anchor_text", values);
    let version_tag = field(values, "version_tag", values);
    let target = field(values, "target_filename_to_extract_from_archive", values);
    let version = field(values, "version", values);
    let desired = field(values, "desired_filename", values);
    let method = field(values, "method", values);
    let anchor_tag = match anchor_tag {
        Err(_) => return Err(
            ConfigError::Placeholder { field: Field::AnchorTag, in_template: false },
        ),
        Ok(v) => v,
    };
    let anchor_text = match anchor_text {
        Err(_) => return Err(
            ConfigError::Placeholder { field: Field::AnchorText, in_template: false },
        ),
        Ok(v) => v,
    };
    let version_tag = match version_tag {
        Err(_) => return Err(
            ConfigError::Placeholder { field: Field::VersionTag, in_template: false },
        ),
        Ok(v) => v,
    };
    let target = match target {
        Err(_) => return Err(
            ConfigError::Placeholder { field: Field::TargetFilename, in_template: false },
        ),
        Ok(v) => v,
    };
    let version = match version {
        Err(_) => return Err(ConfigError::Placeholder { field: Field::Version, in_template: false }),
        Ok(v) => v,
    };
    let desired = match desired {
        Err(_) => return Err(
            ConfigError::Placeholder { field: Field::DesiredFilename, in_template: false },
        ),
        Ok(v) => v,
    };
    let method = match method {
        Err(_) => return Err(ConfigError::Placeholder { field: Field::Method, in_template: false }),
        Ok(v) => v,
    };
    if let Some(v) = anchor_tag {
        cf.anchor_tag = v;
    }
    if let Some(v) = anchor_text {
        cf.anchor_text = v;
    }
    if let Some(v) = version_tag {
        cf.version_tag = Some(v);
    }
    let member = match target {
        Some(v) => v,
        None => section.to_owned(),
    };
    cf.version = version;
    cf.desired_filename = match desired {
        Some(v) => Some(v),
        None => Some(member.clone()),
    };
    cf.target_filename_to_extract_from_archive = Some(member);
    if let Some(v) = method {
        cf.method = v;
    }
    Ok(Some(cf))
}

/// A section that gives no member pattern looks for a member named like the
/// section, and one that gives no desired file name writes the artifact under
/// that same name.
pub proof fn lemma_names_default_to_section(
    section: Seq<char>,
    templates: Map<Seq<char>, Map<Seq<char>, Seq<char>>>,
    vals: Map<Seq<char>, Seq<char>>,
)
    requires
        !crate::text::has_prefix(section, "template:"@),
        !vals.contains_key("target_filename_to_extract_from_archive"@),
    ensures
        resolved_entry(section, templates, vals) matches Ok(Some(e)) ==> e.target == Some(section)
            && (!vals.contains_key("desired_filename"@) ==> e.desired == Some(section)),
{
}

/// The name under which the artifact is written: the desired file name, or
/// else the member pattern.
pub open spec fn target_name(e: EntryView) -> Option<Seq<char>> {
    match e.desired {
        Some(d) => Some(d),
        None => e.target,
    }
}

/// Returns the name under which the artifact is written.
pub fn target_filename(conf: &Config) -> (r: Option<&String>)
    ensures
        r matches Some(n) ==> target_name(conf@) == Some(n@),
        r is None ==> target_name(conf@) is None,
{
    match &conf.desired_filename {
        Some(d) => Some(d),
        None => conf.target_filename_to_extract_from_archive.as_ref(),
    }
}

/// Relies on `std::path::Path::exists`: whether a file is there is a fact of
/// the disk, so nothing is stated of the answer.
#[verifier::external_body]
fn path_exists(name: &str) -> bool {
    std::path::Path::new(name).exists()
}

/// Returns whether the artifact's file is already on disk.
pub fn target_file_already_exists(conf: &Config) -> bool
    requires
        target_name(conf@) is Some,
{
    match target_filename(conf) {
        Some(name) => path_exists(name.as_str()),
        None => false,
    }
}

/// The name of the template that a section defines: what follows the
/// `template:` prefix of its name, when it has that prefix.
pub fn template_name(section: &str) -> (r: Option<&str>)
    ensures
        r is Some <==> has_prefix(section@, "template:"@),
        r matches Some(name) ==> section@ == "template:"@ + name@,
{
    let prefix = "template:";
    if !starts_with(section, prefix) {
        return None;
    }
    let k = prefix.unicode_len();
    let n = section.unicode_len();
    let name = section.substring_char(k, n);
    assert(section@ =~= section@.subrange(0, k as int) + section@.subrange(k as int, n as int));
    Some(name)
}

/// Whether a section is run under the given name filters: every section
/// when there is none, else those whose name holds one of them.
pub open spec fn selected(name: Seq<char>, filters: Seq<Seq<char>>) -> bool {
    filters.len() == 0 || exists|j: int| 0 <= j < filters.len() && has_substring(name, #[trigger] filters[j])
}

/// Returns whether a section is run under the given name filters.
pub fn section_selected(name: &str, filters: &Vec<String>) -> (r: bool)
    ensures
        r == selected(name@, crate::text::views(filters@)),
{
    let ghost fv = crate::text::views(filters@);
    if filters.len() == 0 {
        return true;
    }
    let mut j: usize = 0;
    while j < filters.len()
        invariant
            fv == crate::text::views(filters@),
            j <= filters@.len(),
            forall|k: int| 0 <= k < j ==> !has_substring(name@, #[trigger] fv[k]),
        decreases filters@.len() - j,
    {
        if contains_str(name, filters[j].as_str()) {
            assert(has_substring(name@, fv[j as int]));
            return true;
        }
        j = j + 1;
    }
    false
}

} // verus!
