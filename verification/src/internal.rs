//! The application's own pages: which page an address asks for, and how a
//! page is written into a surface.
//!
//! The pages are served under the scheme `lumina-app`. An address is read
//! leniently: slashes after the scheme, the host `localhost` and slashes
//! around the path may stand or be missing. What follows the first `?`, or
//! the first `#` where no `?` stands, is the query and belongs to no path.

use vstd::prelude::*;
use vstd::string::StringExecFns;
use crate::host::commands_model;
use crate::host::HostCommand;
use crate::host::HostCommandModel;
use crate::navigation::normalize_url;
use crate::navigation::normalized;
use crate::registry::resolved;
use crate::registry::SurfaceModel;
use crate::registry::SurfaceRegistry;
use crate::text::begins_with;
use crate::text::chars_of;
use crate::text::find;
use crate::text::first_occurrence;
use crate::text::replace_all;
use crate::text::replaced;
use crate::text::slice;
use crate::text::starts_with;
use crate::text::string_of;
use crate::text::strip_prefix;
use crate::text::trim_end;
use crate::text::trim_start;
use crate::text::trimmed_end;
use crate::text::trimmed_start;
use crate::text::without_prefix;

verus! {

/// A page of the application.
#[derive(Clone, Copy, Debug, PartialEq, Eq, Structural)]
pub enum InternalPage {
    History,
    Downloads,
    Favorites,
    Store,
    Settings,
    Network,
    /// No page has that path.
    NotFound,
}

/// The page that a path names. The favorites answer to `bookmarks` too.
pub open spec fn page_of(path: Seq<char>) -> InternalPage {
    if path == "history"@ {
        InternalPage::History
    } else if path == "downloads"@ {
        InternalPage::Downloads
    } else if path == "favorites"@ || path == "bookmarks"@ {
        InternalPage::Favorites
    } else if path == "store"@ {
        InternalPage::Store
    } else if path == "settings"@ {
        InternalPage::Settings
    } else if path == "network"@ {
        InternalPage::Network
    } else {
        InternalPage::NotFound
    }
}

fn same_text(a: &str, b: &str) -> (same: bool)
    ensures
        same == (a@ == b@),
{
    let left = a.to_owned();
    let right = b.to_owned();
    left == right
}

/// Tells which page a path names.
pub fn page_for(path: &str) -> (page: InternalPage)
    ensures
        page == page_of(path@),
{
    if same_text(path, "history") {
        InternalPage::History
    } else if same_text(path, "downloads") {
        InternalPage::Downloads
    } else if same_text(path, "favorites") || same_text(path, "bookmarks") {
        InternalPage::Favorites
    } else if same_text(path, "store") {
        InternalPage::Store
    } else if same_text(path, "settings") {
        InternalPage::Settings
    } else if same_text(path, "network") {
        InternalPage::Network
    } else {
        InternalPage::NotFound
    }
}

/// The path and the query of an address of the application.
#[derive(Debug, PartialEq, Eq)]
pub struct InternalPath {
    /// The path, without slashes around it.
    pub path: String,
    /// The query with the `?` or `#` that begins it, or nothing.
    pub query: String,
}

/// Where the query of `s` begins: at the first `?`, else at the first `#`,
/// else at the end.
pub open spec fn query_start(s: Seq<char>) -> int {
    match first_occurrence(s, "?"@) {
        Some(i) => i,
        None => match first_occurrence(s, "#"@) {
            Some(i) => i,
            None => s.len() as int,
        },
    }
}

/// What is left of an address when the scheme, the slashes after it, the
/// host `localhost` and the slashes after that are taken off.
pub open spec fn path_and_query(address: Seq<char>, scheme: Seq<char>) -> Seq<char> {
    trimmed_start(
        without_prefix(trimmed_start(without_prefix(address, scheme), '/'), "localhost"@),
        '/',
    )
}

/// The path of an address, read with `scheme` as its scheme.
pub open spec fn path_of(address: Seq<char>, scheme: Seq<char>) -> Seq<char> {
    let rest = path_and_query(address, scheme);
    trimmed_end(rest.take(query_start(rest)), '/')
}

/// The query of an address, read with `scheme` as its scheme.
pub open spec fn query_of(address: Seq<char>, scheme: Seq<char>) -> Seq<char> {
    let rest = path_and_query(address, scheme);
    rest.skip(query_start(rest))
}

fn split_address(address: &Vec<char>, scheme: &Vec<char>) -> (parts: InternalPath)
    ensures
        parts.path@ == path_of(address@, scheme@),
        parts.query@ == query_of(address@, scheme@),
{
    let without_scheme = strip_prefix(address, scheme);
    let without_slashes = trim_start(&without_scheme, '/');
    let host = chars_of("localhost");
    let without_host = strip_prefix(&without_slashes, &host);
    let rest = trim_start(&without_host, '/');
    let question = chars_of("?");
    let hash = chars_of("#");
    let cut = match find(&rest, &question) {
        Some(i) => i,
        None => match find(&rest, &hash) {
            Some(i) => i,
            None => rest.len(),
        },
    };
    let before = slice(&rest, 0, cut);
    let after = slice(&rest, cut, rest.len());
    proof {
        assert(rest@.subrange(0, cut as int) =~= rest@.take(cut as int));
        assert(rest@.subrange(cut as int, rest@.len() as int) =~= rest@.skip(cut as int));
    }
    let path = trim_end(&before, '/');
    InternalPath { path: string_of(&path), query: string_of(&after) }
}

/// Reads an address that came in under the application's scheme.
pub fn parse_internal_uri(uri: &str) -> (parts: InternalPath)
    ensures
        parts.path@ == path_of(uri@, "lumina-app:"@),
        parts.query@ == query_of(uri@, "lumina-app:"@),
{
    let address = chars_of(uri);
    let scheme = chars_of("lumina-app:");
    split_address(&address, &scheme)
}

/// The scheme that an address of the application is read with: the long one
/// where the address begins with it, and the short one otherwise.
pub open spec fn scheme_of(address: Seq<char>) -> Seq<char> {
    if begins_with(address, "lumina-app:"@) {
        "lumina-app:"@
    } else {
        "lumina:"@
    }
}

/// The address belongs to the application: it begins with `lumina-app://` or
/// with `lumina://`.
pub open spec fn is_application_address(address: Seq<char>) -> bool {
    begins_with(address, "lumina-app://"@) || begins_with(address, "lumina://"@)
}

/// Reads the path and the query of an address, if the address belongs to the
/// application.
pub fn internal_path_of(address: &str) -> (parts: Option<InternalPath>)
    ensures
        match parts {
            Some(p) => is_application_address(address@) && p.path@ == path_of(
                address@,
                scheme_of(address@),
            ) && p.query@ == query_of(address@, scheme_of(address@)),
            None => !is_application_address(address@),
        },
{
    let chars = chars_of(address);
    let long = chars_of("lumina-app://");
    let short = chars_of("lumina://");
    if !(starts_with(&chars, &long) || starts_with(&chars, &short)) {
        return None;
    }
    let long_scheme = chars_of("lumina-app:");
    let short_scheme = chars_of("lumina:");
    if starts_with(&chars, &long_scheme) {
        Some(split_address(&chars, &long_scheme))
    } else {
        Some(split_address(&chars, &short_scheme))
    }
}

/// The id that a query asks to install: what follows the first `id=` up to
/// the next `&`, or `unknown` where the query holds no `id=`.
pub open spec fn install_id_of(query: Seq<char>) -> Seq<char> {
    match first_occurrence(query, "id="@) {
        Some(i) => {
            let rest = query.skip(i + "id="@.len());
            match first_occurrence(rest, "&"@) {
                Some(j) => rest.take(j),
                None => rest,
            }
        },
        None => "unknown"@,
    }
}

/// Reads the id that a query asks to install.
pub fn install_id(query: &str) -> (id: String)
    ensures
        id@ == install_id_of(query@),
{
    let chars = chars_of(query);
    let key = chars_of("id=");
    match find(&chars, &key) {
        Some(i) => {
            let end: usize = chars.len();
            let width: usize = key.len();
            assert(i + width <= end);
            let rest = slice(&chars, i + width, end);
            assert(rest@ =~= chars@.skip(i + key@.len()));
            let amp = chars_of("&");
            match find(&rest, &amp) {
                Some(j) => {
                    let id = slice(&rest, 0, j);
                    assert(id@ =~= rest@.take(j as int));
                    string_of(&id)
                },
                None => string_of(&rest),
            }
        },
        None => String::from_str("unknown"),
    }
}

/// What a request under the application's scheme asks for.
#[derive(Debug, PartialEq, Eq)]
pub enum InternalRoute {
    /// Install the module `id`.
    Install { id: String },
    /// Show the page at `path`.
    Page { page: InternalPage, path: String },
}

/// Reads what a request under the application's scheme asks for: the path
/// `install` installs the module that the query names, and every other path
/// shows a page.
pub fn route(uri: &str) -> (answer: InternalRoute)
    ensures
        match answer {
            InternalRoute::Install { id } => path_of(uri@, "lumina-app:"@) == "install"@ && id@
                == install_id_of(query_of(uri@, "lumina-app:"@)),
            InternalRoute::Page { page, path } => path_of(uri@, "lumina-app:"@) != "install"@
                && path@ == path_of(uri@, "lumina-app:"@) && page == page_of(path@),
        },
{
    let parts = parse_internal_uri(uri);
    if same_text(parts.path.as_str(), "install") {
        InternalRoute::Install { id: install_id(parts.query.as_str()) }
    } else {
        let page = page_for(parts.path.as_str());
        InternalRoute::Page { page, path: parts.path }
    }
}

/// A page's text made fit to stand between apostrophes in a script:
/// backslashes are doubled, apostrophes get a backslash, line feeds are
/// written as `\n` and carriage returns are dropped, in this order.
pub open spec fn escaped_for_script(html: Seq<char>) -> Seq<char> {
    replaced(
        replaced(replaced(replaced(html, "\\"@, "\\\\"@), "'"@, "\\'"@), "\n"@, "\\n"@),
        "\r"@,
        ""@,
    )
}

/// Makes a page's text fit to stand between apostrophes in a script.
pub fn escape_for_script(html: &str) -> (out: String)
    ensures
        out@ == escaped_for_script(html@),
{
    let chars = chars_of(html);
    let step1 = replace_all(&chars, &chars_of("\\"), &chars_of("\\\\"));
    let step2 = replace_all(&step1, &chars_of("'"), &chars_of("\\'"));
    let step3 = replace_all(&step2, &chars_of("\n"), &chars_of("\\n"));
    let step4 = replace_all(&step3, &chars_of("\r"), &chars_of(""));
    string_of(&step4)
}

/// The script that writes a page into a surface and puts `url` in its
/// address bar.
pub open spec fn write_page_script(html: Seq<char>, url: Seq<char>) -> Seq<char> {
    "window.stop(); document.open(); document.write('"@ + escaped_for_script(html)
        + "'); document.close(); try { history.pushState(null, '', '"@ + url
        + "'); } catch(e) { console.warn('PushState failed (likely origin mismatch), but content loaded:', e); }"@
}

/// The script that sends a surface to `url` without a new entry in its
/// history.
pub open spec fn replace_location_script(url: Seq<char>) -> Seq<char> {
    "window.location.replace('"@ + url + "')"@
}

/// The commands that put a page into the surface `label`: none where the
/// label names no live surface; else the focus, and the script that writes
/// `html` where there is a page, or that sends the surface to the canonical
/// address where there is none.
pub open spec fn force_navigate_commands(
    surfaces: Seq<SurfaceModel>,
    label: Seq<char>,
    raw_url: Seq<char>,
    html: Option<Seq<char>>,
) -> Seq<HostCommandModel> {
    if resolved(surfaces, label) is Some {
        seq![
            HostCommandModel::Focus { label },
            HostCommandModel::Evaluate {
                label,
                script: match html {
                    Some(page) => write_page_script(page, normalized(raw_url)),
                    None => replace_location_script(normalized(raw_url)),
                },
            },
        ]
    } else {
        Seq::empty()
    }
}

/// Puts a page into the surface `label` without asking the network.
///
/// `html` is the page for the address where the address belongs to the
/// application, and nothing otherwise.
pub fn force_internal_navigate(
    registry: &SurfaceRegistry,
    label: &str,
    raw_url: &str,
    html: Option<String>,
) -> (commands: Vec<HostCommand>)
    requires
        registry.wf(),
    ensures
        commands_model(commands@) == force_navigate_commands(
            registry@,
            label@,
            raw_url@,
            crate::text::optional_text(html),
        ),
{
    let mut commands: Vec<HostCommand> = Vec::new();
    if registry.resolve(label).is_some() {
        let url = normalize_url(raw_url);
        let script = match html {
            Some(page) => {
                let escaped = escape_for_script(page.as_str());
                let mut script = String::from_str(
                    "window.stop(); document.open(); document.write('",
                );
                script.append(escaped.as_str());
                script.append("'); document.close(); try { history.pushState(null, '', '");
                script.append(url.as_str());
                script.append(
                    "'); } catch(e) { console.warn('PushState failed (likely origin mismatch), but content loaded:', e); }",
                );
                script
            },
            None => {
                let mut script = String::from_str("window.location.replace('");
                script.append(url.as_str());
                script.append("')");
                script
            },
        };
        commands.push(HostCommand::Focus { label: label.to_owned() });
        commands.push(HostCommand::Evaluate { label: label.to_owned(), script });
    }
    assert(commands_model(commands@) =~= force_navigate_commands(
        registry@,
        label@,
        raw_url@,
        crate::text::optional_text(html),
    ));
    commands
}

} // verus!
