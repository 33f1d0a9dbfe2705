//! Where pages and the template live, and what to do before a page is edited.

use vstd::prelude::*;
use vstd::string::{StrSliceExecFns, StringExecFns};
use crate::config::{Config, JournalError};
use crate::date::CalendarDate;
use crate::text::{push_char, push_two_digits, push_year, two_digits, year_text};

verus! {

/// `part` appended to the path `base`, with one separator between them.
pub open spec fn join(base: Seq<char>, part: Seq<char>) -> Seq<char> {
    if base.len() == 0 || base.last() == '/' {
        base + part
    } else {
        base + seq!['/'] + part
    }
}

/// The file suffix for an extension: none for an empty one.
pub open spec fn ext_suffix(ext: Seq<char>) -> Seq<char> {
    if ext.len() == 0 {
        seq![]
    } else {
        seq!['.'] + ext
    }
}

/// `root/<year>/<MM>`: the directory of a month's pages.
pub open spec fn month_dir(root: Seq<char>, date: CalendarDate) -> Seq<char> {
    join(root, year_text(date.year as int)) + seq!['/'] + two_digits(date.month as nat)
}

/// `root/<year>/<MM>/<DD>.<ext>`: the page of a day.
pub open spec fn page_path(root: Seq<char>, date: CalendarDate, ext: Seq<char>) -> Seq<char> {
    month_dir(root, date) + seq!['/'] + two_digits(date.day as nat) + ext_suffix(ext)
}

pub open spec fn template_name() -> Seq<char> {
    seq!['t', 'e', 'm', 'p', 'l', 'a', 't', 'e']
}

/// `root/template`: the template of new pages.
pub open spec fn template_path_of(root: Seq<char>) -> Seq<char> {
    join(root, template_name())
}

/// `base` with the separator that a following part needs.
fn path_prefix(base: &str) -> (r: String)
    ensures
        forall|part: Seq<char>| #[trigger] join(base@, part) == r@ + part,
{
    let n = base.unicode_len();
    let mut r = String::from_str(base);
    if n > 0 && base.get_char(n - 1) != '/' {
        push_char(&mut r, '/');
    }
    assert forall|part: Seq<char>| #[trigger] join(base@, part) == r@ + part by {
        if n > 0 && base@.last() != '/' {
            assert(base@ + seq!['/'] + part =~= r@ + part);
        }
    }
    r
}

/// The template path of a journal root.
pub fn template_path(journal_path: &str) -> (r: String)
    ensures
        r@ == template_path_of(journal_path@),
{
    let mut r = path_prefix(journal_path);
    proof {
        reveal_strlit("template");
    }
    let ghost p = r@;
    r.append("template");
    assert("template"@ =~= template_name());
    assert(join(journal_path@, template_name()) == p + template_name());
    r
}

/// The directory of a date's month under `root`.
pub fn locate_dir(root: &str, date: &CalendarDate) -> (r: String)
    requires
        date.wf(),
    ensures
        r@ == month_dir(root@, *date),
{
    let mut r = path_prefix(root);
    let ghost p = r@;
    push_year(&mut r, date.year);
    push_char(&mut r, '/');
    push_two_digits(&mut r, date.month);
    assert(join(root@, year_text(date.year as int)) == p + year_text(date.year as int));
    assert(r@ =~= month_dir(root@, *date));
    r
}

/// The page of a date under `root`, with the given extension.
pub fn locate(root: &str, date: &CalendarDate, extension: &str) -> (r: String)
    requires
        date.wf(),
    ensures
        r@ == page_path(root@, *date, extension@),
{
    let mut r = locate_dir(root, date);
    let ghost d = r@;
    push_char(&mut r, '/');
    push_two_digits(&mut r, date.day);
    if extension.unicode_len() > 0 {
        push_char(&mut r, '.');
        r.append(extension);
    }
    assert(r@ =~= page_path(root@, *date, extension@));
    r
}

/// The month and day parts of a page path are two characters wide: the
/// path ends with `/MM/DD` and then the extension's suffix.
pub proof fn lemma_page_path_segments(root: Seq<char>, date: CalendarDate, ext: Seq<char>)
    requires
        date.wf(),
    ensures
        ({
            let p = page_path(root, date, ext);
            let n = p.len() - ext_suffix(ext).len();
            &&& n >= 6
            &&& p[n - 6] == '/'
            &&& p.subrange(n - 5, n - 3) == two_digits(date.month as nat)
            &&& p[n - 3] == '/'
            &&& p.subrange(n - 2, n) == two_digits(date.day as nat)
            &&& p.subrange(n, p.len() as int) == ext_suffix(ext)
        }),
{
    let y = join(root, year_text(date.year as int));
    let p = page_path(root, date, ext);
    let s = ext_suffix(ext);
    let n = p.len() - s.len();
    assert(p =~= y + (seq!['/'] + two_digits(date.month as nat) + seq!['/'] + two_digits(
        date.day as nat,
    )) + s);
    assert(year_text(date.year as int).len() >= 1) by {
        if date.year < 0 {
        } else {
            crate::text::lemma_decimal_nonempty(date.year as nat);
        }
    }
    assert(p.subrange(n - 5, n - 3) =~= two_digits(date.month as nat));
    assert(p.subrange(n - 2, n) =~= two_digits(date.day as nat));
    assert(p.subrange(n, p.len() as int) =~= s);
}

/// The files of a page: where it lives and where its template would be.
#[derive(Debug)]
pub struct PagePlan {
    pub journal_root: String,
    pub page_dir: String,
    pub page_path: String,
    pub template_path: String,
}

/// Locates the page of a date under the configured journal root, with the
/// configured extension (`txt` where none is set).
pub fn plan_page(config: &Config, date: &CalendarDate) -> (r: Result<PagePlan, JournalError>)
    requires
        date.wf(),
    ensures
        config.path is None <==> r is Err,
        r is Err ==> r == Err::<PagePlan, JournalError>(JournalError::MissingJournalPath),
        r matches Ok(p) ==> {
            let root = config.path->0@;
            let ext = if config.extension is Some { config.extension->0@ } else { "txt"@ };
            &&& p.journal_root@ == root
            &&& p.page_dir@ == month_dir(root, *date)
            &&& p.page_path@ == page_path(root, *date, ext)
            &&& p.template_path@ == template_path_of(root)
        },
{
    let root = match config.journal_root() {
        Ok(r) => r,
        Err(e) => {
            return Err(e);
        },
    };
    let ext = config.page_extension();
    let page_dir = locate_dir(root.as_str(), date);
    let page_path = locate(root.as_str(), date, ext.as_str());
    let template_path = template_path(root.as_str());
    Ok(PagePlan { journal_root: root, page_dir, page_path, template_path })
}

/// What to do with a page before its editor starts.
#[derive(Clone, Copy, Debug, PartialEq, Eq, Structural)]
pub enum Preparation {
    /// The page exists: leave it as it is.
    Keep,
    /// No page and no template: make the page's directory, so that the
    /// editor can create the page there.
    MakeDirectory,
    /// No page, and a template: make the page's directory and write the
    /// expanded template as the page.
    Materialize,
}

/// Decides how to prepare a page. A page that exists is never written, and
/// one that does not is materialized only where a template exists.
pub fn prepare(page_exists: bool, template_exists: bool) -> (r: Preparation)
    ensures
        page_exists ==> r == Preparation::Keep,
        !page_exists && template_exists ==> r == Preparation::Materialize,
        !page_exists && !template_exists ==> r == Preparation::MakeDirectory,
{
    if page_exists {
        Preparation::Keep
    } else if template_exists {
        Preparation::Materialize
    } else {
        Preparation::MakeDirectory
    }
}

} // verus!
