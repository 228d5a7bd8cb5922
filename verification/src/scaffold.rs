use vstd::prelude::*;
use vstd::string::StrSliceExecFns;
use vstd::string::StringExecFns;

verus! {

use vstd::seq_lib::*;
use vstd::utf8::valid_utf8;
use vstd::utf8::decode_utf8;
use crate::template_scan::safe_template;
use crate::template_scan::template_is_safe;

/// One file of the embedded template store, as handed to the planner: its
/// path within the store (`<template>/<relative path>`) and its raw bytes.
#[derive(Debug, PartialEq, Eq)]
pub struct TemplateFile {
    pub path: String,
    pub data: Vec<u8>,
}

impl View for TemplateFile {
    type V = (Seq<char>, Seq<u8>);

    open spec fn view(&self) -> (Seq<char>, Seq<u8>) {
        (self.path@, self.data@)
    }
}

/// The content a planned file is to be written with.
#[derive(Debug, PartialEq, Eq)]
pub enum FileBody {
    /// The rendered text of a template file.
    Rendered(String),
    /// The bytes of a static file, copied as they stand.
    Copied(Vec<u8>),
}

/// One file the scaffolding must write: where it goes, relative to the new
/// project's directory, and what goes into it.
#[derive(Debug, PartialEq, Eq)]
pub struct PlannedFile {
    pub path: String,
    pub body: FileBody,
}

/// The value of a planned file's content.
pub enum BodyModel {
    Rendered(Seq<char>),
    Copied(Seq<u8>),
}

/// The value of a planned file.
pub struct OutFileModel {
    pub path: Seq<char>,
    pub body: BodyModel,
}

impl View for PlannedFile {
    type V = OutFileModel;

    open spec fn view(&self) -> OutFileModel {
        OutFileModel {
            path: self.path@,
            body: match self.body {
                FileBody::Rendered(s) => BodyModel::Rendered(s@),
                FileBody::Copied(b) => BodyModel::Copied(b@),
            },
        }
    }
}

/// Why scaffolding was refused.
#[derive(Debug, PartialEq, Eq)]
pub enum ScaffoldError {
    /// No embedded file lies under the named template.
    TemplateNotFound(String),
    /// The named template file must be rendered but is not UTF-8 text.
    BadEncoding(String),
    /// The named template file uses template syntax the scaffolder refuses
    /// before the rendering engine sees it.
    UnsupportedSyntax(String),
    /// The named template file was refused by the rendering engine.
    RenderFailed(String),
}

/// The value of a scaffolding refusal; the template name itself is carried
/// alongside, not here.
pub enum ScaffoldErrorModel {
    TemplateNotFound,
    BadEncoding(Seq<char>),
    UnsupportedSyntax(Seq<char>),
    RenderFailed(Seq<char>),
}

impl ScaffoldError {
    /// The diagnostic this refusal shows the operator.
    pub open spec fn message_spec(self) -> Seq<char> {
        match self {
            ScaffoldError::TemplateNotFound(t) => "Template '"@ + t@
                + "' not found. Available templates are: cli, web."@,
            ScaffoldError::BadEncoding(p) => "Template file '"@ + p@ + "' is not valid UTF-8 text."@,
            ScaffoldError::UnsupportedSyntax(p) => "Template file '"@ + p@
                + "' uses unsupported template syntax."@,
            ScaffoldError::RenderFailed(p) => "Template file '"@ + p@ + "' could not be rendered."@,
        }
    }

    /// Render the diagnostic.
    pub fn message(&self) -> (m: String)
        ensures
            m@ == self.message_spec(),
    {
        match self {
            ScaffoldError::TemplateNotFound(t) => String::from_str("Template '").concat(
                t.as_str(),
            ).concat("' not found. Available templates are: cli, web."),
            ScaffoldError::BadEncoding(p) => String::from_str("Template file '").concat(
                p.as_str(),
            ).concat("' is not valid UTF-8 text."),
            ScaffoldError::UnsupportedSyntax(p) => String::from_str("Template file '").concat(
                p.as_str(),
            ).concat("' uses unsupported template syntax."),
            ScaffoldError::RenderFailed(p) => String::from_str("Template file '").concat(
                p.as_str(),
            ).concat("' could not be rendered."),
        }
    }
}

/// Whether the error `e` reports the refusal `m` of scaffolding `template`.
pub open spec fn error_matches(e: ScaffoldError, m: ScaffoldErrorModel, template: Seq<char>) -> bool {
    match m {
        ScaffoldErrorModel::TemplateNotFound => e matches ScaffoldError::TemplateNotFound(t)
            && t@ == template,
        ScaffoldErrorModel::BadEncoding(p) => e matches ScaffoldError::BadEncoding(q) && q@ == p,
        ScaffoldErrorModel::UnsupportedSyntax(p) => e matches ScaffoldError::UnsupportedSyntax(q)
            && q@ == p,
        ScaffoldErrorModel::RenderFailed(p) => e matches ScaffoldError::RenderFailed(q) && q@ == p,
    }
}

/// What the rendering engine makes of template text `text` with the data
/// map that binds `name` -- the one substitution scaffolding uses.  `None`
/// exactly for the texts the engine refuses; otherwise the rendered
/// characters.  The result depends on `text` and `name` alone.
pub uninterp spec fn rendered_with_name(text: Seq<char>, name: Seq<char>) -> Option<Seq<char>>;

/// Relies on `handlebars::Handlebars::render_template` (handlebars crate):
/// rendering a template string against the one-entry data map
/// `{"name": name}` with a fresh default registry depends on the template
/// text and the name alone; it errs exactly where the engine refuses the
/// template.  The engine recurses through partial inclusion (`{{>`), which
/// an inline partial (`{{#*inline}}`) can make self-referential without
/// bound, and through the template's nested structure; the call is
/// therefore only made on [`safe_template`] texts, where no partial or
/// decorator is reached, every expression is short, and block nesting is
/// bounded, so the engine returns.
#[verifier::external_body]
fn render_with_name(text: &str, name: &str) -> (r: Option<String>)
    requires
        safe_template(text@),
    ensures
        r matches Some(s) ==> rendered_with_name(text@, name@) == Some(s@),
        r is None ==> rendered_with_name(text@, name@) is None,
{
    let mut data = std::collections::HashMap::new();
    data.insert("name", name);
    handlebars::Handlebars::new().render_template(text, &data).ok()
}

/// Relies on std's `str::from_utf8`: it succeeds exactly on valid UTF-8,
/// yielding the decoded characters.
#[verifier::external_body]
fn utf8_to_text(data: &Vec<u8>) -> (r: Option<String>)
    ensures
        r matches Some(s) ==> valid_utf8(data@) && s@ == decode_utf8(data@),
        r is None ==> !valid_utf8(data@),
{
    match std::str::from_utf8(data.as_slice()) {
        Ok(s) => Some(s.to_owned()),
        Err(_) => None,
    }
}

/// Where a rendered template file goes: its `.hbs` suffix is dropped,
/// except when the file's bare name is exactly `.hbs` -- a hidden file
/// with no stem, which keeps its name.
pub open spec fn hbs_out_path(rel: Seq<char>) -> Seq<char> {
    if rel.len() == ".hbs"@.len() || rel[rel.len() - ".hbs"@.len() - 1] == '/' {
        rel
    } else {
        rel.subrange(0, rel.len() - ".hbs"@.len())
    }
}

/// What one embedded file must become, once it is known to lie under the
/// template: rendered and stripped of its suffix when it is a `.hbs`
/// template, copied as it stands otherwise.  `full` is the file's path in
/// the store (named in errors), `rel` the same path with the template
/// prefix dropped.
pub open spec fn render_one(name: Seq<char>, full: Seq<char>, rel: Seq<char>, data: Seq<u8>)
    -> Result<OutFileModel, ScaffoldErrorModel> {
    if ".hbs"@.is_suffix_of(rel) {
        if !valid_utf8(data) {
            Err(ScaffoldErrorModel::BadEncoding(full))
        } else if !safe_template(decode_utf8(data)) {
            Err(ScaffoldErrorModel::UnsupportedSyntax(full))
        } else {
            match rendered_with_name(decode_utf8(data), name) {
                Option::None => Err(ScaffoldErrorModel::RenderFailed(full)),
                Option::Some(text) => Ok(OutFileModel {
                    path: hbs_out_path(rel),
                    body: BodyModel::Rendered(text),
                }),
            }
        }
    } else {
        Ok(OutFileModel { path: rel, body: BodyModel::Copied(data) })
    }
}

/// What one embedded file contributes to the plan: nothing when it lies
/// outside the template's directory.
pub open spec fn plan_one(pre: Seq<char>, name: Seq<char>, path: Seq<char>, data: Seq<u8>)
    -> Option<Result<OutFileModel, ScaffoldErrorModel>> {
    if !pre.is_prefix_of(path) {
        None
    } else {
        Some(render_one(name, path, path.subrange(pre.len() as int, path.len() as int), data))
    }
}

/// The plan for a sequence of embedded files, in their order; the first
/// refusal wins.
pub open spec fn plan_files(pre: Seq<char>, name: Seq<char>, files: Seq<(Seq<char>, Seq<u8>)>)
    -> Result<Seq<OutFileModel>, ScaffoldErrorModel>
    decreases files.len(),
{
    if files.len() == 0 {
        Ok(Seq::empty())
    } else {
        match plan_one(pre, name, files[0].0, files[0].1) {
            Option::None => plan_files(pre, name, files.drop_first()),
            Option::Some(Result::Err(e)) => Err(e),
            Option::Some(Result::Ok(f)) => match plan_files(pre, name, files.drop_first()) {
                Result::Ok(rest) => Ok(seq![f] + rest),
                Result::Err(e) => Err(e),
            },
        }
    }
}

/// Whether any embedded file lies under the template's directory.
pub open spec fn template_present(pre: Seq<char>, files: Seq<(Seq<char>, Seq<u8>)>) -> bool {
    exists|i: int| 0 <= i < files.len() && pre.is_prefix_of(files[i].0)
}

/// The whole decision of scaffolding `template` as project `name` from the
/// embedded `files`.
pub open spec fn scaffold_spec(
    template: Seq<char>,
    name: Seq<char>,
    files: Seq<(Seq<char>, Seq<u8>)>,
) -> Result<Seq<OutFileModel>, ScaffoldErrorModel> {
    let pre = template + "/"@;
    if !template_present(pre, files) {
        Err(ScaffoldErrorModel::TemplateNotFound)
    } else {
        plan_files(pre, name, files)
    }
}

/// The values of the embedded files, in order.
pub open spec fn files_model(files: Seq<TemplateFile>) -> Seq<(Seq<char>, Seq<u8>)> {
    files.map_values(|f: TemplateFile| f@)
}

/// The values of the planned files, in order.
pub open spec fn plan_model(plan: Seq<PlannedFile>) -> Seq<OutFileModel> {
    plan.map_values(|p: PlannedFile| p@)
}

/// Whether `pre` begins `s`.
fn str_has_prefix(s: &str, pre: &str) -> (b: bool)
    ensures
        b == pre@.is_prefix_of(s@),
{
    let n = pre.unicode_len();
    let m = s.unicode_len();
    if m < n {
        return false;
    }
    let mut i: usize = 0;
    while i < n
        invariant
            i <= n,
            n == pre@.len(),
            m == s@.len(),
            n <= m,
            forall|j: int| 0 <= j < i ==> s@[j] == pre@[j],
        decreases n - i,
    {
        if s.get_char(i) != pre.get_char(i) {
            assert(!pre@.is_prefix_of(s@)) by {
                assert(s@.subrange(0, n as int)[i as int] == s@[i as int]);
            }
            return false;
        }
        i += 1;
    }
    assert(pre@ =~= s@.subrange(0, n as int));
    true
}

/// Whether `suf` ends `s`.
fn str_has_suffix(s: &str, suf: &str) -> (b: bool)
    ensures
        b == suf@.is_suffix_of(s@),
{
    let n = suf.unicode_len();
    let m = s.unicode_len();
    if m < n {
        return false;
    }
    let off = m - n;
    let mut i: usize = 0;
    while i < n
        invariant
            i <= n,
            n == suf@.len(),
            m == s@.len(),
            off == m - n,
            forall|j: int| 0 <= j < i ==> s@[off + j] == suf@[j],
        decreases n - i,
    {
        if s.get_char(off + i) != suf.get_char(i) {
            assert(!suf@.is_suffix_of(s@)) by {
                assert(s@.subrange(off as int, m as int)[i as int] == s@[off + i]);
            }
            return false;
        }
        i += 1;
    }
    assert(suf@ =~= s@.subrange(off as int, m as int));
    true
}

/// One more embedded file extends the plan at its end, or is the first
/// refusal.
proof fn lemma_plan_files_snoc(
    pre: Seq<char>,
    name: Seq<char>,
    files: Seq<(Seq<char>, Seq<u8>)>,
    x: (Seq<char>, Seq<u8>),
)
    ensures
        plan_files(pre, name, files.push(x)) == (match plan_files(pre, name, files) {
            Result::Ok(rest) => match plan_one(pre, name, x.0, x.1) {
                Option::None => Result::<Seq<OutFileModel>, ScaffoldErrorModel>::Ok(rest),
                Option::Some(Result::Ok(f)) => Result::<Seq<OutFileModel>, ScaffoldErrorModel>::Ok(
                    rest.push(f),
                ),
                Option::Some(Result::Err(e)) => Result::<Seq<OutFileModel>, ScaffoldErrorModel>::Err(
                    e,
                ),
            },
            Result::Err(e) => Result::<Seq<OutFileModel>, ScaffoldErrorModel>::Err(e),
        }),
    decreases files.len(),
{
    let appended = files.push(x);
    if files.len() == 0 {
        assert(appended.drop_first() =~= Seq::<(Seq<char>, Seq<u8>)>::empty());
        assert(plan_files(pre, name, appended.drop_first())
            == Ok::<Seq<OutFileModel>, ScaffoldErrorModel>(Seq::empty()));
        assert(Seq::<OutFileModel>::empty().push(a_file(pre, name, x))
            =~= seq![a_file(pre, name, x)] + Seq::<OutFileModel>::empty());
    } else {
        assert(appended.drop_first() =~= files.drop_first().push(x));
        lemma_plan_files_snoc(pre, name, files.drop_first(), x);
        match plan_one(pre, name, files[0].0, files[0].1) {
            Option::Some(Result::Ok(f)) => match plan_files(pre, name, files.drop_first()) {
                Result::Ok(rest) => match plan_one(pre, name, x.0, x.1) {
                    Option::Some(Result::Ok(g)) => {
                        assert(seq![f] + rest.push(g) =~= (seq![f] + rest).push(g));
                    },
                    _ => {},
                },
                _ => {},
            },
            _ => {},
        }
    }
}

/// The planned file an embedded file becomes, where it becomes one.
spec fn a_file(pre: Seq<char>, name: Seq<char>, x: (Seq<char>, Seq<u8>)) -> OutFileModel {
    match plan_one(pre, name, x.0, x.1) {
        Option::Some(Result::Ok(f)) => f,
        _ => OutFileModel { path: Seq::empty(), body: BodyModel::Copied(Seq::empty()) },
    }
}

/// Decide everything of scaffolding that is not filesystem work: check
/// that some embedded file lies under `template`, and compute, for every
/// file under it, where it goes and with what content.  A `.hbs` file is
/// rendered with the project name bound to `name` and loses its suffix;
/// any other file is copied as it stands.  The first file that cannot be
/// read as UTF-8 or that the rendering engine refuses is the error
/// reported; a template nothing lies under is reported before any file is
/// considered.
pub fn handle(template: &str, name: &str, files: &Vec<TemplateFile>) -> (r: Result<
    Vec<PlannedFile>,
    ScaffoldError,
>)
    ensures
        ({
            let decision = scaffold_spec(template@, name@, files_model(files@));
            match r {
                Result::Ok(plan) => decision matches Ok(out) && plan_model(plan@) == out,
                Result::Err(e) => decision matches Err(m) && error_matches(e, m, template@),
            }
        }),
{
    let ghost model = files_model(files@);
    let prefix = String::from_str(template).concat("/");
    let mut found = false;
    let mut i: usize = 0;
    while i < files.len()
        invariant
            i <= files.len(),
            prefix@ == template@ + "/"@,
            model == files_model(files@),
            model.len() == files@.len(),
            found == exists|j: int| 0 <= j < i && prefix@.is_prefix_of(model[j].0),
        decreases files.len() - i,
    {
        assert(model[i as int].0 == files@[i as int].path@);
        if str_has_prefix(files[i].path.as_str(), prefix.as_str()) {
            found = true;
        }
        i += 1;
    }
    if !found {
        return Err(ScaffoldError::TemplateNotFound(String::from_str(template)));
    }
    assert(template_present(prefix@, model));

    let mut plan: Vec<PlannedFile> = Vec::new();
    proof {
        assert(model.take(0) =~= Seq::<(Seq<char>, Seq<u8>)>::empty());
        assert(plan_model(plan@) =~= Seq::<OutFileModel>::empty());
    }
    let mut i: usize = 0;
    while i < files.len()
        invariant
            i <= files.len(),
            prefix@ == template@ + "/"@,
            model == files_model(files@),
            model.len() == files@.len(),
            plan_files(prefix@, name@, model.take(i as int))
                == Ok::<Seq<OutFileModel>, ScaffoldErrorModel>(plan_model(plan@)),
        decreases files.len() - i,
    {
        let file = &files[i];
        assert(model[i as int] == (file.path@, file.data@));
        proof {
            assert(model.take(i + 1) =~= model.take(i as int).push(model[i as int]));
            lemma_plan_files_snoc(prefix@, name@, model.take(i as int), model[i as int]);
        }
        if str_has_prefix(file.path.as_str(), prefix.as_str()) {
            let plen = prefix.as_str().unicode_len();
            let slen = file.path.as_str().unicode_len();
            let rel = file.path.as_str().substring_char(plen, slen);
            proof {
                reveal_strlit(".hbs");
            }
            if str_has_suffix(rel, ".hbs") {
                match utf8_to_text(&file.data) {
                    Option::None => {
                        proof {
                            lemma_plan_error_stays(prefix@, name@, model, i as int);
                        }
                        return Err(ScaffoldError::BadEncoding(file.path.clone()));
                    },
                    Option::Some(text) => {
                        if !template_is_safe(text.as_str()) {
                            proof {
                                lemma_plan_error_stays(prefix@, name@, model, i as int);
                            }
                            return Err(ScaffoldError::UnsupportedSyntax(file.path.clone()));
                        }
                        match render_with_name(text.as_str(), name) {
                            Option::None => {
                                proof {
                                    lemma_plan_error_stays(prefix@, name@, model, i as int);
                                }
                                return Err(ScaffoldError::RenderFailed(file.path.clone()));
                            },
                            Option::Some(rendered) => {
                                let rlen = rel.unicode_len();
                                let out_path = if rlen == 4 || rel.get_char(rlen - 5) == '/' {
                                    String::from_str(rel)
                                } else {
                                    String::from_str(rel.substring_char(0, rlen - 4))
                                };
                                let ghost prev = plan@;
                                plan.push(
                                    PlannedFile {
                                        path: out_path,
                                        body: FileBody::Rendered(rendered),
                                    },
                                );
                                proof {
                                    assert(plan_model(plan@) =~= plan_model(prev).push(
                                        plan@.last()@,
                                    ));
                                }
                            },
                        }
                    },
                }
            } else {
                let ghost prev = plan@;
                plan.push(
                    PlannedFile {
                        path: String::from_str(rel),
                        body: FileBody::Copied(vstd::slice::slice_to_vec(file.data.as_slice())),
                    },
                );
                proof {
                    assert(plan_model(plan@) =~= plan_model(prev).push(plan@.last()@));
                }
            }
        }
        i += 1;
    }
    proof {
        assert(model.take(files@.len() as int) =~= model);
    }
    Ok(plan)
}

/// A refusal at file `i`, with the files before it refused by none, is the
/// whole plan's refusal.
proof fn lemma_plan_error_stays(pre: Seq<char>, name: Seq<char>, files: Seq<(Seq<char>, Seq<u8>)>, i: int)
    requires
        0 <= i < files.len(),
        plan_files(pre, name, files.take(i)) is Ok,
        plan_one(pre, name, files[i].0, files[i].1) matches Some(r) && r is Err,
    ensures
        plan_files(pre, name, files) == (match plan_one(pre, name, files[i].0, files[i].1) {
            Option::Some(Result::Err(e)) => Result::<Seq<OutFileModel>, ScaffoldErrorModel>::Err(e),
            _ => Result::<Seq<OutFileModel>, ScaffoldErrorModel>::Err(
                ScaffoldErrorModel::TemplateNotFound,
            ),
        }),
    decreases i,
{
    if i == 0 {
    } else {
        let rest = files.drop_first();
        assert(files.take(i).drop_first() =~= rest.take(i - 1));
        assert(rest[i - 1] == files[i]);
        match plan_one(pre, name, files[0].0, files[0].1) {
            Option::None => {
                lemma_plan_error_stays(pre, name, rest, i - 1);
            },
            Option::Some(Result::Ok(_)) => {
                lemma_plan_error_stays(pre, name, rest, i - 1);
            },
            Option::Some(Result::Err(_)) => {
                assert(files.take(i)[0] == files[0]);
                assert(plan_files(pre, name, files.take(i)) is Err);
            },
        }
    }
}

} // verus!
