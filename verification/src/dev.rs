use vstd::prelude::*;
use vstd::string::StringExecFns;

verus! {

use crate::supervisor::DevError;
use crate::supervisor::Supervisor;

/// What the project descriptor's `template` entry holds: `Some` exactly for
/// the documents that parse as a TOML table whose `template` entry is a
/// string, and then that string's characters.
pub uninterp spec fn template_field_of(s: Seq<char>) -> Option<Seq<char>>;

/// Relies on `toml::from_str` and `toml::map::Map::get` (toml crate):
/// parsing a document into a `toml::Table` and looking up one entry depend
/// on the document text alone.
#[verifier::external_body]
fn parse_template_field(s: &str) -> (r: Option<String>)
    ensures
        r matches Some(t) ==> template_field_of(s@) == Some(t@),
        r is None ==> template_field_of(s@) is None,
{
    match toml::from_str::<toml::Table>(s) {
        Ok(table) => match table.get("template") {
            Some(toml::Value::String(t)) => Some(t.clone()),
            _ => None,
        },
        Err(_) => None,
    }
}

/// The one run mode dev mode is offered for: the web template, which
/// denotes a long-running application rather than a one-shot build
/// artifact.
pub open spec fn dev_allowed(template: Seq<char>) -> bool {
    template == "web"@
}

/// Enter dev mode.  `descriptor` is the text of the project descriptor, or
/// `None` where none could be read.  Checks that the project is one dev
/// mode is offered for and hands back the supervisor ready to run its
/// first action; on any configuration error nothing is watched and no
/// child is launched -- no machine exists at all.
pub fn handle(descriptor: Option<&str>, verbose: bool) -> (r: Result<Supervisor, DevError>)
    ensures
        descriptor is None ==> r == Err::<Supervisor, DevError>(DevError::NotAProject),
        descriptor matches Some(d) ==> match template_field_of(d@) {
            Option::None => r == Err::<Supervisor, DevError>(DevError::BadDescriptor),
            Option::Some(t) => if dev_allowed(t) {
                r == Ok::<Supervisor, DevError>(Supervisor::init_spec(verbose))
            } else {
                r matches Err(e) && e matches DevError::WrongTemplate(w) && w@ == t
            },
        },
{
    match descriptor {
        None => Err(DevError::NotAProject),
        Some(d) => match parse_template_field(d) {
            None => Err(DevError::BadDescriptor),
            Some(t) => {
                let web = String::from_str("web");
                if t == web {
                    Ok(Supervisor::new(verbose))
                } else {
                    Err(DevError::WrongTemplate(t))
                }
            },
        },
    }
}

} // verus!
