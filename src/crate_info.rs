use vstd::prelude::*;

use crate::manifest::{get_manifest_version, manifest_version};
use crate::text::{lower_of, lowercase, upper_of, uppercase};

verus! {

/// Where the documentation of a crate is found.
pub enum CrateSource {
    /// The standard library, on doc.rust-lang.org.
    Std,
    /// A copy built in the working directory, under `target/doc`.
    Local(String),
    /// A crate published on docs.rs.
    DocsRs(String),
}

/// A `CrateSource` with its names seen as sequences of characters.
pub enum SourceView {
    Std,
    Local(Seq<char>),
    DocsRs(Seq<char>),
}

impl View for CrateSource {
    type V = SourceView;

    open spec fn view(&self) -> SourceView {
        match self {
            CrateSource::Std => SourceView::Std,
            CrateSource::Local(name) => SourceView::Local(name@),
            CrateSource::DocsRs(name) => SourceView::DocsRs(name@),
        }
    }
}

impl CrateSource {
    pub fn is_local(&self) -> (r: bool)
        ensures
            r == (self@ is Local),
    {
        matches!(self, CrateSource::Local(_))
    }
}

/// Structure with information about the crate.
pub struct CrateInfo {
    pub source: CrateSource,
    pub version: Option<String>,
    pub query: Option<String>,
    pub warning: Option<String>,
}

/// What the user asked for.
pub struct Args {
    /// Tries to open local documentation.
    pub local: bool,
    /// Looks up the version in the manifest.
    pub manifest: bool,
    /// The crate's name.
    pub name: String,
    /// Opens documentation for a specific version.
    pub version: Option<String>,
    /// Specifies a query to search the documentation with.
    pub query: Option<String>,
}

/// A `CrateInfo` with every string seen as a sequence of characters.
pub struct CrateInfoView {
    pub source: SourceView,
    pub version: Option<Seq<char>>,
    pub query: Option<Seq<char>>,
    pub warning: Option<Seq<char>>,
}

impl View for CrateInfo {
    type V = CrateInfoView;

    open spec fn view(&self) -> CrateInfoView {
        CrateInfoView {
            source: self.source@,
            version: self.version.deep_view(),
            query: self.query.deep_view(),
            warning: self.warning.deep_view(),
        }
    }
}

/// The warning given when a version or a search is asked of a local copy.
pub open spec fn local_warning() -> Seq<char> {
    "Versioning and querying is not available with local crates."@
}

/// The version asked for: with `manifest`, the one that the manifest's text
/// declares for `name` (none when the text could not be read, or declares
/// nothing); else the one given.
pub open spec fn chosen_version(args: Args, name: Seq<char>, manifest_text: Option<Seq<char>>) -> Option<
    Seq<char>,
> {
    if args.manifest {
        match manifest_text {
            Some(text) => {
                let v = manifest_version(name, text);
                if v.len() == 0 {
                    None
                } else {
                    Some(v)
                }
            },
            None => None,
        }
    } else {
        args.version.deep_view()
    }
}

/// What `args` resolves to. The name is taken in lower case; `std` is the
/// standard library, whatever else was asked.
pub open spec fn parsed(args: Args, manifest_text: Option<Seq<char>>) -> CrateInfoView {
    let name = lower_of(args.name@);
    let version = chosen_version(args, name, manifest_text);
    let query = args.query.deep_view();
    if name == "std"@ {
        CrateInfoView { source: SourceView::Std, version, query, warning: None }
    } else if args.local {
        let warning = if version is Some || query is Some {
            Some(local_warning())
        } else {
            None
        };
        CrateInfoView { source: SourceView::Local(name), version, query, warning }
    } else {
        CrateInfoView { source: SourceView::DocsRs(name), version, query, warning: None }
    }
}

/// The search part of a URL: `?search=` and the query as it is, without escaping.
pub open spec fn search_part(query: Option<Seq<char>>) -> Seq<char> {
    match query {
        Some(q) => "?search="@ + q,
        None => Seq::empty(),
    }
}

/// The address of the documentation that `info` asks for. A local copy lies
/// under `base_dir`; it has no versions and no search.
pub open spec fn url_of(info: CrateInfoView, base_dir: Seq<char>) -> Seq<char> {
    match info.source {
        SourceView::Std => {
            let base = match info.version {
                Some(v) => "https://doc.rust-lang.org/"@ + v + "/std/"@,
                None => "https://doc.rust-lang.org/stable/std/"@,
            };
            base + search_part(info.query)
        },
        SourceView::Local(name) => base_dir + "/target/doc/"@ + name + "/index.html"@,
        SourceView::DocsRs(name) => {
            let base = match info.version {
                Some(v) => "https://docs.rs/"@ + name + "/"@ + v,
                None => "https://docs.rs/"@ + name,
            };
            base + search_part(info.query)
        },
    }
}

/// A name with its first character in upper case.
pub open spec fn capitalized(name: Seq<char>) -> Seq<char> {
    if name.len() == 0 {
        name
    } else {
        upper_of(name.take(1)) + name.skip(1)
    }
}

/// The title shown once the documentation is open.
pub open spec fn banner_of(info: CrateInfoView) -> Seq<char> {
    match info.source {
        SourceView::Std => match info.version {
            Some(v) => "||| The Standard Library "@ + v + " ||| "@,
            None => "||| The Standard Library ||| "@,
        },
        SourceView::Local(name) | SourceView::DocsRs(name) => {
            let version = match info.version {
                Some(v) => v,
                None => Seq::empty(),
            };
            let warning = match info.warning {
                Some(w) => w,
                None => Seq::empty(),
            };
            "||| The Book Of "@ + capitalized(name) + " "@ + version + "|||"@ + warning
        },
    }
}

/// Resolves what the user asked for. `manifest_text` is the manifest's text,
/// or `None` when it could not be read; it is used only with `matches.manifest`.
pub fn parse_args(matches: Args, manifest_text: Option<&str>) -> (r: CrateInfo)
    ensures
        r@ == parsed(matches, manifest_text.deep_view()),
{
    let name = lowercase(matches.name.as_str());
    let query = matches.query;
    let version = if matches.manifest {
        match manifest_text {
            Some(text) => {
                let v = get_manifest_version(name.as_str(), text);
                if v.as_str().is_empty() {
                    None
                } else {
                    Some(v)
                }
            },
            None => None,
        }
    } else {
        matches.version
    };
    let std_name = String::from_str("std");
    if name == std_name {
        CrateInfo { source: CrateSource::Std, version, query, warning: None }
    } else if matches.local {
        let warning = if version.is_some() || query.is_some() {
            Some(String::from_str("Versioning and querying is not available with local crates."))
        } else {
            None
        };
        CrateInfo { source: CrateSource::Local(name), version, query, warning }
    } else {
        CrateInfo { source: CrateSource::DocsRs(name), version, query, warning: None }
    }
}

/// A local crate carries a warning exactly when a version or a search was asked
/// for too; no other crate carries one.
pub proof fn lemma_warning_iff_version_or_query(args: Args, manifest_text: Option<Seq<char>>)
    ensures
        ({
            let r = parsed(args, manifest_text);
            &&& r.source is Local ==> (r.warning is Some <==> (r.version is Some
                || r.query is Some))
            &&& !(r.source is Local) ==> r.warning is None
        }),
{
}

/// Names that differ only in case resolve to the same source, the same
/// address and the same title.
pub proof fn lemma_name_case_ignored(
    a: Args,
    b: Args,
    manifest_text: Option<Seq<char>>,
    base_dir: Seq<char>,
)
    requires
        lower_of(a.name@) == lower_of(b.name@),
        a.local == b.local,
        a.manifest == b.manifest,
        a.version.deep_view() == b.version.deep_view(),
        a.query.deep_view() == b.query.deep_view(),
    ensures
        parsed(a, manifest_text) == parsed(b, manifest_text),
        url_of(parsed(a, manifest_text), base_dir) == url_of(parsed(b, manifest_text), base_dir),
        banner_of(parsed(a, manifest_text)) == banner_of(parsed(b, manifest_text)),
{
}

fn append_search(url: &mut String, query: &Option<String>)
    ensures
        final(url)@ == old(url)@ + search_part(query.deep_view()),
{
    match query {
        Some(q) => {
            url.append("?search=");
            url.append(q.as_str());
        },
        None => {
            assert(old(url)@ + Seq::empty() =~= old(url)@);
        },
    }
}

/// The address of the crate's documentation; a local copy is looked for under
/// `base_dir`.
pub fn make_url(crate_info: &CrateInfo, base_dir: &str) -> (r: String)
    ensures
        r@ == url_of(crate_info@, base_dir@),
{
    match &crate_info.source {
        CrateSource::Std => {
            let mut url = match &crate_info.version {
                Some(version) => {
                    let mut base = String::from_str("https://doc.rust-lang.org/");
                    base.append(version.as_str());
                    base.append("/std/");
                    base
                },
                None => String::from_str("https://doc.rust-lang.org/stable/std/"),
            };
            append_search(&mut url, &crate_info.query);
            url
        },
        CrateSource::Local(name) => {
            let mut url = String::from_str(base_dir);
            url.append("/target/doc/");
            url.append(name.as_str());
            url.append("/index.html");
            url
        },
        CrateSource::DocsRs(name) => {
            let mut url = String::from_str("https://docs.rs/");
            url.append(name.as_str());
            match &crate_info.version {
                Some(version) => {
                    url.append("/");
                    url.append(version.as_str());
                },
                None => {},
            }
            append_search(&mut url, &crate_info.query);
            url
        },
    }
}

/// Converts the first letter of a crate's name to upper case.
pub fn first_letter_to_upper(c: &str) -> (r: String)
    ensures
        r@ == capitalized(c@),
{
    let n = c.unicode_len();
    if n == 0 {
        String::from_str(c)
    } else {
        let mut r = uppercase(c.substring_char(0, 1));
        r.append(c.substring_char(1, n));
        assert(c@.take(1) =~= c@.subrange(0, 1));
        assert(c@.skip(1) =~= c@.subrange(1, n as int));
        r
    }
}

/// The title to show once the crate's documentation is open.
pub fn banner(crate_info: &CrateInfo) -> (r: String)
    ensures
        r@ == banner_of(crate_info@),
{
    match &crate_info.source {
        CrateSource::Std => match &crate_info.version {
            Some(version) => {
                let mut r = String::from_str("||| The Standard Library ");
                r.append(version.as_str());
                r.append(" ||| ");
                r
            },
            None => String::from_str("||| The Standard Library ||| "),
        },
        CrateSource::Local(name) | CrateSource::DocsRs(name) => {
            let mut r = String::from_str("||| The Book Of ");
            let title = first_letter_to_upper(name.as_str());
            r.append(title.as_str());
            r.append(" ");
            match &crate_info.version {
                Some(version) => r.append(version.as_str()),
                None => {},
            }
            r.append("|||");
            match &crate_info.warning {
                Some(warning) => r.append(warning.as_str()),
                None => {},
            }
            assert(r@ =~= banner_of(crate_info@));
            r
        },
    }
}

} // verus!
