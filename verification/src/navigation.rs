//! Addresses: their canonical form, and what a navigation sets in motion.
//!
//! The application serves its own pages under the scheme `lumina-app`, always
//! from the host `localhost`. Addresses written with the short scheme
//! `lumina://`, or with `lumina-app://` and no host, are rewritten to that one
//! form before anything else looks at them. Such pages are never probed.

use vstd::prelude::*;
use crate::host::commands_model;
use crate::host::HostCommand;
use crate::host::HostCommandModel;
use crate::host::LifecycleEvent;
use crate::host::LifecycleEventModel;
use crate::host::TabNavigationPayload;
use crate::host::TabUpdatedPayload;
use crate::text::optional_text;
use crate::registry::resolved;
use crate::registry::SurfaceRegistry;
use crate::registry::SurfaceModel;
use crate::text::begins_with;
use crate::text::chars_of;
use crate::text::starts_with;
use crate::text::slice;
use crate::text::string_of;
use vstd::string::StringExecFns;

verus! {

/// The short form of the application's scheme.
pub open spec fn short_scheme() -> Seq<char> {
    "lumina://"@
}

/// The application's scheme, with the two slashes that follow it.
pub open spec fn app_scheme() -> Seq<char> {
    "lumina-app://"@
}

/// What every canonical address of the application begins with.
pub open spec fn canonical_root() -> Seq<char> {
    "lumina-app://localhost/"@
}

/// The application's scheme alone.
pub open spec fn internal_scheme() -> Seq<char> {
    "lumina-app:"@
}

/// What follows the scheme names the host already: it is `localhost`, or
/// begins with `localhost/`.
pub open spec fn names_host(rest: Seq<char>) -> bool {
    rest == "localhost"@ || begins_with(rest, "localhost/"@)
}

/// The canonical address for what follows the scheme: under the
/// application's scheme, with the host put in where it is missing.
pub open spec fn canonical(rest: Seq<char>) -> Seq<char> {
    if names_host(rest) {
        app_scheme() + rest
    } else {
        canonical_root() + rest
    }
}

/// The canonical form of an address.
///
/// Only what the address begins with counts. An address that begins with
/// `lumina://` or with `lumina-app://` is written under the application's
/// scheme and the host `localhost`; where the host stands there already, it
/// is not put in a second time. What follows is kept as it is. Every other
/// address stays as it is.
pub open spec fn normalized(url: Seq<char>) -> Seq<char> {
    if begins_with(url, short_scheme()) {
        canonical(url.skip(short_scheme().len() as int))
    } else if begins_with(url, app_scheme()) {
        canonical(url.skip(app_scheme().len() as int))
    } else {
        url
    }
}

/// The address is one of the application's own pages.
pub open spec fn is_internal(url: Seq<char>) -> bool {
    begins_with(url, internal_scheme())
}

/// The address is one that is never probed: a page of the application or of
/// the host layer, a local file, or an address that holds its own content.
pub open spec fn is_probe_exempt(url: Seq<char>) -> bool {
    ||| is_internal(url)
    ||| begins_with(url, short_scheme())
    ||| begins_with(url, "tauri://"@)
    ||| begins_with(url, "file://"@)
    ||| begins_with(url, "about:"@)
    ||| begins_with(url, "data:"@)
}

fn canonical_of(rest: &Vec<char>) -> (out: String)
    ensures
        out@ == canonical(rest@),
{
    let bare = string_of(rest);
    let named = bare == "localhost".to_owned() || starts_with(rest, &chars_of("localhost/"));
    let mut out = if named {
        String::from_str("lumina-app://")
    } else {
        String::from_str("lumina-app://localhost/")
    };
    out.append(bare.as_str());
    out
}

/// Rewrites an address to its canonical form.
pub fn normalize_url(url: &str) -> (out: String)
    ensures
        out@ == normalized(url@),
{
    let chars = chars_of(url);
    let short = chars_of("lumina://");
    let app = chars_of("lumina-app://");
    if starts_with(&chars, &short) {
        let rest = slice(&chars, short.len(), chars.len());
        assert(rest@ =~= url@.skip(short_scheme().len() as int));
        canonical_of(&rest)
    } else if starts_with(&chars, &app) {
        let rest = slice(&chars, app.len(), chars.len());
        assert(rest@ =~= url@.skip(app_scheme().len() as int));
        canonical_of(&rest)
    } else {
        string_of(&chars)
    }
}

/// Tells whether an address is one of the application's own pages.
pub fn is_internal_url(url: &str) -> (internal: bool)
    ensures
        internal == is_internal(url@),
{
    let chars = chars_of(url);
    let scheme = chars_of("lumina-app:");
    starts_with(&chars, &scheme)
}

/// Tells whether an address is one that is never probed.
pub fn is_probe_exempt_url(url: &str) -> (exempt: bool)
    ensures
        exempt == is_probe_exempt(url@),
{
    let chars = chars_of(url);
    let internal = chars_of("lumina-app:");
    let short = chars_of("lumina://");
    let host = chars_of("tauri://");
    let file = chars_of("file://");
    let about = chars_of("about:");
    let data = chars_of("data:");
    starts_with(&chars, &internal) || starts_with(&chars, &short) || starts_with(&chars, &host)
        || starts_with(&chars, &file) || starts_with(&chars, &about) || starts_with(
        &chars,
        &data,
    )
}

/// What the router decided about one navigation attempt.
#[derive(Debug, PartialEq, Eq)]
pub struct NavigationDecision {
    /// Whether the surface may go on to the address.
    pub allow: bool,
    /// The address in its canonical form.
    pub url: String,
    /// What the host layer is to do besides.
    pub commands: Vec<HostCommand>,
}

/// The commands that go with a navigation of `label` to the canonical address
/// `url`: none for a page of the application; for every other address the
/// event for the listeners, then the probe.
pub open spec fn navigation_commands(label: Seq<char>, url: Seq<char>) -> Seq<HostCommandModel> {
    if is_internal(url) {
        Seq::empty()
    } else {
        seq![
            HostCommandModel::Emit { event: LifecycleEventModel::TabNavigation { label, url } },
            HostCommandModel::Probe { label, url },
        ]
    }
}

/// Decides about a navigation that the surface `label` is about to make.
///
/// The navigation is always allowed: whether the destination can be reached
/// is found out afterwards. The address is put in its canonical form first.
/// Pages of the application raise no event and are not probed.
pub fn on_navigation_attempt(label: &str, raw_url: &str) -> (decision: NavigationDecision)
    ensures
        decision.allow,
        decision.url@ == normalized(raw_url@),
        commands_model(decision.commands@) == navigation_commands(label@, normalized(raw_url@)),
{
    let url = normalize_url(raw_url);
    let mut commands: Vec<HostCommand> = Vec::new();
    if !is_internal_url(url.as_str()) {
        commands.push(
            HostCommand::Emit {
                event: LifecycleEvent::TabNavigation(
                    TabNavigationPayload { label: label.to_owned(), url: url.clone() },
                ),
            },
        );
        commands.push(HostCommand::Probe { label: label.to_owned(), url: url.clone() });
    }
    assert(commands_model(commands@) =~= navigation_commands(label@, normalized(raw_url@)));
    NavigationDecision { allow: true, url, commands }
}

/// The script that sends a surface to `url`.
pub open spec fn assign_script(url: Seq<char>) -> Seq<char> {
    "window.location.assign('"@ + url + "')"@
}

/// The probe of the canonical address `url` for the surface `label`: none
/// for a page of the application.
pub open spec fn probe_commands(label: Seq<char>, url: Seq<char>) -> Seq<HostCommandModel> {
    if is_internal(url) {
        Seq::empty()
    } else {
        seq![HostCommandModel::Probe { label, url }]
    }
}

/// The commands that send the surface `label` to `raw_url`: none where the
/// label names no live surface; else the focus and the script that loads the
/// canonical address, and after them the probe, unless the address is a page
/// of the application.
pub open spec fn navigate_commands(
    surfaces: Seq<SurfaceModel>,
    label: Seq<char>,
    raw_url: Seq<char>,
) -> Seq<HostCommandModel> {
    if resolved(surfaces, label) is Some {
        seq![
            HostCommandModel::Focus { label },
            HostCommandModel::Evaluate { label, script: assign_script(normalized(raw_url)) },
        ] + probe_commands(label, normalized(raw_url))
    } else {
        Seq::empty()
    }
}

/// Sends the surface `label` to `raw_url`.
///
/// The surface is sent to the canonical form of the address. A page of the
/// application is never probed. A label that names no live surface yields no
/// command; the caller may poll
/// with [`crate::registry::resolve_with_retry`] first where the surface was
/// only just created.
pub fn navigate(registry: &SurfaceRegistry, label: &str, raw_url: &str) -> (commands: Vec<
    HostCommand,
>)
    requires
        registry.wf(),
    ensures
        commands_model(commands@) == navigate_commands(registry@, label@, raw_url@),
{
    let mut commands: Vec<HostCommand> = Vec::new();
    if registry.resolve(label).is_some() {
        let url = normalize_url(raw_url);
        let mut script = String::from_str("window.location.assign('");
        script.append(url.as_str());
        script.append("')");
        commands.push(HostCommand::Focus { label: label.to_owned() });
        commands.push(HostCommand::Evaluate { label: label.to_owned(), script });
        if !is_internal_url(url.as_str()) {
            commands.push(HostCommand::Probe { label: label.to_owned(), url });
        }
    }
    assert(commands_model(commands@) =~= navigate_commands(registry@, label@, raw_url@));
    commands
}

/// What follows when a tab reports what its page calls itself.
#[derive(Debug, PartialEq, Eq)]
pub struct TabInfoUpdate {
    /// The address whose title the history is to take over, with that title.
    pub history_title: Option<(String, String)>,
    /// The event for the listeners.
    pub event: LifecycleEvent,
}

/// The history takes a title over where both the address and the title are
/// known and the address is no page of the host layer and no `about:` page.
pub open spec fn history_takes_title(url: Option<Seq<char>>, title: Option<Seq<char>>) -> bool {
    url is Some && title is Some && !begins_with(url->0, "tauri://"@) && !begins_with(
        url->0,
        "about:"@,
    )
}

/// Takes in what the tab `label` reports of its page: the listeners hear of
/// the title and the icon in any case, and the history takes the title over
/// where [`history_takes_title`] says so.
pub fn update_tab_info(
    label: String,
    title: Option<String>,
    favicon: Option<String>,
    url: Option<String>,
) -> (update: TabInfoUpdate)
    ensures
        update.event@ == (LifecycleEventModel::TabUpdated {
            label: label@,
            title: optional_text(title),
            favicon: optional_text(favicon),
        }),
        match update.history_title {
            Some(pair) => history_takes_title(optional_text(url), optional_text(title)) && pair.0@
                == url->0@ && pair.1@ == title->0@,
            None => !history_takes_title(optional_text(url), optional_text(title)),
        },
{
    let history_title = match (&url, &title) {
        (Some(u), Some(t)) => {
            let chars = chars_of(u.as_str());
            if !starts_with(&chars, &chars_of("tauri://")) && !starts_with(
                &chars,
                &chars_of("about:"),
            ) {
                Some((u.clone(), t.clone()))
            } else {
                None
            }
        },
        _ => None,
    };
    TabInfoUpdate {
        history_title,
        event: LifecycleEvent::TabUpdated(TabUpdatedPayload { label, title, favicon }),
    }
}

/// An address that begins with the canonical root is canonical already.
pub proof fn lemma_rooted_is_canonical(url: Seq<char>)
    requires
        begins_with(url, canonical_root()),
    ensures
        normalized(url) == url,
{
    reveal_strlit("lumina://");
    reveal_strlit("lumina-app://");
    reveal_strlit("lumina-app://localhost/");
    reveal_strlit("localhost/");
    let root = canonical_root();
    let rest = url.skip(app_scheme().len() as int);
    assert(url.subrange(0, root.len() as int) == root);
    assert forall|i: int| 0 <= i < root.len() implies url[i] == root[i] by {
        assert(url.subrange(0, root.len() as int)[i] == url[i]);
    }
    if begins_with(url, short_scheme()) {
        assert(url.subrange(0, short_scheme().len() as int)[6] == short_scheme()[6]);
    }
    assert(url.subrange(0, app_scheme().len() as int) =~= app_scheme());
    assert(rest.subrange(0, "localhost/"@.len() as int) =~= "localhost/"@);
    assert(app_scheme() + rest =~= url);
}

/// What the canonical form of an address of the application looks like: it
/// stands under the application's scheme, and it is the bare host or begins
/// with the canonical root.
pub proof fn lemma_canonical_shape(url: Seq<char>)
    requires
        begins_with(url, short_scheme()) || begins_with(url, app_scheme()),
    ensures
        is_internal(normalized(url)),
        normalized(url) == "lumina-app://localhost"@ || begins_with(
            normalized(url),
            canonical_root(),
        ),
{
    reveal_strlit("lumina://");
    reveal_strlit("lumina-app://");
    reveal_strlit("lumina-app:");
    reveal_strlit("lumina-app://localhost/");
    reveal_strlit("lumina-app://localhost");
    reveal_strlit("localhost/");
    reveal_strlit("localhost");
    let rest = if begins_with(url, short_scheme()) {
        url.skip(short_scheme().len() as int)
    } else {
        url.skip(app_scheme().len() as int)
    };
    let out = normalized(url);
    if begins_with(url, short_scheme()) && begins_with(url, app_scheme()) {
        assert(url.subrange(0, short_scheme().len() as int)[6] == short_scheme()[6]);
        assert(url.subrange(0, app_scheme().len() as int)[6] == app_scheme()[6]);
    }
    assert(out == canonical(rest));
    if names_host(rest) {
        assert(out == app_scheme() + rest);
        assert(out.subrange(0, internal_scheme().len() as int) =~= internal_scheme());
        if rest == "localhost"@ {
            assert(out =~= "lumina-app://localhost"@);
        } else {
            assert(rest.subrange(0, "localhost/"@.len() as int) == "localhost/"@);
            assert forall|i: int| 0 <= i < "localhost/"@.len() implies rest[i]
                == "localhost/"@[i] by {
                assert(rest.subrange(0, "localhost/"@.len() as int)[i] == rest[i]);
            }
            assert(out.subrange(0, canonical_root().len() as int) =~= canonical_root());
        }
    } else {
        assert(out == canonical_root() + rest);
        assert(out.subrange(0, internal_scheme().len() as int) =~= internal_scheme());
        assert(out.subrange(0, canonical_root().len() as int) =~= canonical_root());
    }
}

/// Putting an address in its canonical form a second time changes nothing.
pub proof fn lemma_normalized_is_stable(url: Seq<char>)
    ensures
        normalized(normalized(url)) == normalized(url),
{
    reveal_strlit("lumina://");
    reveal_strlit("lumina-app://");
    reveal_strlit("lumina-app://localhost/");
    reveal_strlit("lumina-app://localhost");
    reveal_strlit("localhost");
    if begins_with(url, short_scheme()) || begins_with(url, app_scheme()) {
        lemma_canonical_shape(url);
        let out = normalized(url);
        if begins_with(out, canonical_root()) {
            lemma_rooted_is_canonical(out);
        } else {
            assert(out == "lumina-app://localhost"@);
            assert(out.subrange(0, app_scheme().len() as int) =~= app_scheme());
            if begins_with(out, short_scheme()) {
                assert(out.subrange(0, short_scheme().len() as int)[6] == short_scheme()[6]);
            }
            assert(out.skip(app_scheme().len() as int) =~= "localhost"@);
            assert(app_scheme() + "localhost"@ =~= out);
        }
    }
}

/// An address that belongs neither to the short scheme nor to the
/// application's scheme passes through unchanged.
pub proof fn lemma_foreign_address_is_kept(url: Seq<char>)
    requires
        !begins_with(url, short_scheme()),
        !begins_with(url, app_scheme()),
    ensures
        normalized(url) == url,
{
}

/// A surface that is sent to an address of the application is never probed:
/// the commands are the focus and the script, and nothing after them.
pub proof fn lemma_application_address_is_not_probed(
    surfaces: Seq<SurfaceModel>,
    label: Seq<char>,
    raw_url: Seq<char>,
)
    requires
        begins_with(raw_url, short_scheme()) || begins_with(raw_url, app_scheme()),
    ensures
        probe_commands(label, normalized(raw_url)) == Seq::<HostCommandModel>::empty(),
        navigation_commands(label, normalized(raw_url)) == Seq::<HostCommandModel>::empty(),
        resolved(surfaces, label) is Some ==> navigate_commands(surfaces, label, raw_url) == seq![
            HostCommandModel::Focus { label },
            HostCommandModel::Evaluate { label, script: assign_script(normalized(raw_url)) },
        ],
{
    lemma_canonical_shape(raw_url);
    if resolved(surfaces, label) is Some {
        assert(navigate_commands(surfaces, label, raw_url) =~= seq![
            HostCommandModel::Focus { label },
            HostCommandModel::Evaluate { label, script: assign_script(normalized(raw_url)) },
        ]);
    }
}

} // verus!
