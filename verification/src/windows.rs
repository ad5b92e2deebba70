//! The windows that stand beside the main window: how they are labelled and
//! which of them are listed.
//!
//! A standalone window of a site is labelled after the site's host, so that
//! opening the site again finds the window that is there. A flash window is
//! labelled after the moment it was opened.

use vstd::prelude::*;
use vstd::string::StringExecFns;
use crate::clock::unix_now_micros;
use crate::codec::host_of;
use crate::codec::url_host;
use crate::text::begins_with;
use crate::text::chars_of;
use crate::text::decimal;
use crate::text::decimal_of;
use crate::text::is_alphanumeric_char;
use crate::text::replace_all;
use crate::text::replaced;
use crate::text::starts_with;
use crate::text::string_of;

verus! {

/// A host with every character that is neither letter nor digit turned into
/// a hyphen.
pub open spec fn safe_host(host: Seq<char>) -> Seq<char> {
    host.map_values(
        |c: char|
            if is_alphanumeric_char(c) {
                c
            } else {
                '-'
            },
    )
}

/// The label of the standalone window of a site, by the site's host; by the
/// moment `micros` where the site's address has no host.
pub open spec fn pwa_label_of(host: Option<Seq<char>>, micros: i64) -> Seq<char> {
    match host {
        Some(h) => "pwa-"@ + safe_host(h),
        None => "pwa-"@ + decimal(micros as int),
    }
}

/// The label of the standalone window of a site, given the host of the
/// site's address and the present moment.
pub fn pwa_label(host: Option<String>, micros: i64) -> (label: String)
    ensures
        label@ == pwa_label_of(crate::text::optional_text(host), micros),
{
    let mut label = String::from_str("pwa-");
    match host {
        Some(h) => {
            let chars = chars_of(h.as_str());
            let mut safe: Vec<char> = Vec::new();
            let mut i: usize = 0;
            while i < chars.len()
                invariant
                    i <= chars.len(),
                    safe@ == safe_host(chars@.take(i as int)),
                decreases chars.len() - i,
            {
                let c = chars[i];
                let ghost before = safe@;
                if c.is_alphanumeric() {
                    safe.push(c);
                } else {
                    safe.push('-');
                }
                assert(safe@ =~= safe_host(chars@.take(i + 1))) by {
                    assert(chars@.take(i + 1) =~= chars@.take(i as int).push(chars@[i as int]));
                }
                i += 1;
            }
            assert(chars@.take(chars.len() as int) =~= chars@);
            let safe_text = string_of(&safe);
            label.append(safe_text.as_str());
        },
        None => {
            let digits = decimal_of(micros);
            label.append(digits.as_str());
        },
    }
    label
}

/// The label of the standalone window of the site at `url`.
///
/// Where the address has a host the label is made of the host; otherwise it
/// is made of the present moment, and so differs from call to call.
pub fn sanitize_pwa_label(url: &str) -> (label: String)
    ensures
        match url_host(url@) {
            Some(h) => label@ == "pwa-"@ + safe_host(h),
            None => exists|micros: i64| label@ == #[trigger] pwa_label_of(None, micros),
        },
{
    match host_of(url) {
        Some(h) => pwa_label(Some(h), 0),
        None => {
            let micros = unix_now_micros();
            pwa_label(None, micros)
        },
    }
}

/// The label of a flash window that is opened at the moment `micros`.
pub fn flash_label_at(micros: i64) -> (label: String)
    ensures
        label@ == "flash-"@ + decimal(micros as int),
{
    let mut label = String::from_str("flash-");
    let digits = decimal_of(micros);
    label.append(digits.as_str());
    label
}

/// The label of a flash window that is opened now.
pub fn flash_label() -> (label: String)
    ensures
        exists|micros: i64| label@ == "flash-"@ + #[trigger] decimal(micros as int),
{
    let micros = unix_now_micros();
    flash_label_at(micros)
}

/// A window is listed unless it is the main window or a flash window.
pub open spec fn is_listed(label: Seq<char>) -> bool {
    label != "main"@ && !begins_with(label, "flash-"@)
}

/// Tells whether a window is one to list.
pub fn is_listed_window(label: &str) -> (listed: bool)
    ensures
        listed == is_listed(label@),
{
    let own = label.to_owned();
    let main = String::from_str("main");
    if own == main {
        return false;
    }
    let chars = chars_of(label);
    !starts_with(&chars, &chars_of("flash-"))
}

/// The address that an argument of the program asks to open as a standalone
/// window: what is left of an argument that begins with `--pwa-url=` when
/// every `--pwa-url=` and every quotation mark is taken out of it.
pub open spec fn pwa_url_of(arg: Seq<char>) -> Option<Seq<char>> {
    if begins_with(arg, "--pwa-url="@) {
        Some(replaced(replaced(arg, "--pwa-url="@, ""@), "\""@, ""@))
    } else {
        None
    }
}

/// The address that the arguments up to `n` ask to open: that of the last
/// argument that asks for one.
pub open spec fn pwa_url_among(args: Seq<Seq<char>>, n: int) -> Option<Seq<char>>
    decreases n,
{
    if n <= 0 || n > args.len() {
        None
    } else {
        match pwa_url_of(args[n - 1]) {
            Some(url) => Some(url),
            None => pwa_url_among(args, n - 1),
        }
    }
}

/// Reads from the program's arguments which address to open as a standalone
/// window, if any.
pub fn pwa_url_from_args(args: &Vec<String>) -> (url: Option<String>)
    ensures
        crate::text::optional_text(url) == pwa_url_among(
            args@.map_values(|a: String| a@),
            args@.len() as int,
        ),
{
    let ghost model = args@.map_values(|a: String| a@);
    let key = chars_of("--pwa-url=");
    let quote = chars_of("\"");
    let nothing = chars_of("");
    let mut url: Option<String> = None;
    let mut i: usize = 0;
    while i < args.len()
        invariant
            i <= args.len(),
            model == args@.map_values(|a: String| a@),
            key@ == "--pwa-url="@,
            quote@ == "\""@,
            nothing@ == ""@,
            crate::text::optional_text(url) == pwa_url_among(model, i as int),
        decreases args.len() - i,
    {
        let chars = chars_of(args[i].as_str());
        assert(chars@ == model[i as int]);
        if starts_with(&chars, &key) {
            let without_key = replace_all(&chars, &key, &nothing);
            let without_quotes = replace_all(&without_key, &quote, &nothing);
            url = Some(string_of(&without_quotes));
        }
        i += 1;
    }
    url
}

/// A name with every character that is neither letter, digit nor space
/// turned into an underscore.
pub open spec fn safe_name(name: Seq<char>) -> Seq<char> {
    name.map_values(
        |c: char|
            if is_alphanumeric_char(c) || c == ' ' {
                c
            } else {
                '_'
            },
    )
}

/// The name of the file of a shortcut to the site called `name`.
pub fn shortcut_file_name(name: &str) -> (file: String)
    ensures
        file@ == safe_name(name@) + ".lnk"@,
{
    let chars = chars_of(name);
    let mut safe: Vec<char> = Vec::new();
    let mut i: usize = 0;
    while i < chars.len()
        invariant
            i <= chars.len(),
            safe@ == safe_name(chars@.take(i as int)),
        decreases chars.len() - i,
    {
        let c = chars[i];
        if c.is_alphanumeric() || c == ' ' {
            safe.push(c);
        } else {
            safe.push('_');
        }
        assert(safe@ =~= safe_name(chars@.take(i + 1))) by {
            assert(chars@.take(i + 1) =~= chars@.take(i as int).push(chars@[i as int]));
        }
        i += 1;
    }
    assert(chars@.take(chars.len() as int) =~= chars@);
    let mut file = string_of(&safe);
    file.append(".lnk");
    file
}

/// The script that makes a shortcut at `path` which starts the program at
/// `exe` for the site at `url`, with the icon at `icon` where there is one.
/// Apostrophes in the address are doubled, as the shell asks.
pub open spec fn shortcut_script_of(
    path: Seq<char>,
    exe: Seq<char>,
    url: Seq<char>,
    icon: Option<Seq<char>>,
) -> Seq<char> {
    "$WshShell = New-Object -comObject WScript.Shell; $Shortcut = $WshShell.CreateShortcut('"@
        + path + "'); $Shortcut.TargetPath = '"@ + exe + "'; $Shortcut.Arguments = '--pwa-url=\""@
        + replaced(url, "'"@, "''"@) + "\"';"@ + match icon {
        Some(i) => " $Shortcut.IconLocation = '"@ + i + "';"@,
        None => Seq::<char>::empty(),
    } + " $Shortcut.Save()"@
}

/// Writes the script that makes a shortcut to a site.
pub fn shortcut_script(path: &str, exe: &str, url: &str, icon: Option<String>) -> (script: String)
    ensures
        script@ == shortcut_script_of(path@, exe@, url@, crate::text::optional_text(icon)),
{
    let safe_url = string_of(&replace_all(&chars_of(url), &chars_of("'"), &chars_of("''")));
    let mut script = String::from_str(
        "$WshShell = New-Object -comObject WScript.Shell; $Shortcut = $WshShell.CreateShortcut('",
    );
    script.append(path);
    script.append("'); $Shortcut.TargetPath = '");
    script.append(exe);
    script.append("'; $Shortcut.Arguments = '--pwa-url=\"");
    script.append(safe_url.as_str());
    script.append("\"';");
    let ghost before = script@;
    match icon {
        Some(i) => {
            script.append(" $Shortcut.IconLocation = '");
            script.append(i.as_str());
            script.append("';");
            assert(script@ =~= before + (" $Shortcut.IconLocation = '"@ + i@ + "';"@));
        },
        None => {
            assert(script@ =~= before + Seq::<char>::empty());
        },
    }
    script.append(" $Shortcut.Save()");
    script
}

} // verus!
