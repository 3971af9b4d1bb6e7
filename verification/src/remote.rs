//! Where the templates live.

use vstd::prelude::*;
use vstd::string::*;

verus! {

/// The address of the organization that hosts the templates, up to the
/// template's name.
pub open spec fn base_url() -> Seq<char> {
    "https://github.com/app-generator/"@
}

/// The page of a template's repository: the base address and the
/// template's name, as it is.
pub open spec fn repository_page(template: Seq<char>) -> Seq<char> {
    base_url() + template
}

/// What is cloned for a template: its repository page and `.git`.
pub open spec fn clone_source(template: Seq<char>) -> Seq<char> {
    repository_page(template) + ".git"@
}

/// The page of a template's repository. The name is neither checked nor
/// escaped.
pub fn repository_url(template: &str) -> (url: String)
    ensures
        url@ == repository_page(template@),
{
    let mut url = "https://github.com/app-generator/".to_owned();
    url.append(template);
    url
}

/// The address to clone a template from. The name is neither checked nor
/// escaped.
pub fn clone_url(template: &str) -> (url: String)
    ensures
        url@ == clone_source(template@),
{
    let mut url = repository_url(template);
    url.append(".git");
    url
}

} // verus!
