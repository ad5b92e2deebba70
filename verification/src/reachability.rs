//! What follows when a tab's destination cannot be reached.
//!
//! After a navigation the host layer probes the address in the background,
//! giving up after [`PROBE_TIMEOUT_SECS`]. Its finding comes back here. Only a
//! destination that could not be connected to is acted on: the tab is sent to
//! the error view. An answer of any status, also an error status, counts as
//! reached, since the page shows that by itself.

use vstd::prelude::*;
use vstd::string::StringExecFns;
use vstd::utf8::encode_utf8;
use crate::codec::is_unreserved;
use crate::codec::encoded_byte;
use crate::codec::hex_digit;
use crate::codec::percent_encode;
use crate::codec::percent_encoded;
use crate::host::HostCommand;
use crate::host::HostCommandModel;
use crate::navigation::is_probe_exempt;
use crate::navigation::is_probe_exempt_url;
use crate::registry::resolved;
use crate::registry::SurfaceModel;
use crate::registry::SurfaceRegistry;

verus! {

/// The seconds that a probe may take.
pub const PROBE_TIMEOUT_SECS: u64 = 10;

/// What a probe found.
#[derive(Clone, Copy, Debug, PartialEq, Eq, Structural)]
pub enum ProbeOutcome {
    /// The destination answered, with this status.
    Responded { status: u16 },
    /// No connection came about: the name did not resolve or the destination
    /// refused.
    ConnectFailed,
    /// The probe ran out of time.
    TimedOut,
    /// The connection broke while the request's body was passing.
    BodyFailed,
    /// The probe failed before it was sent.
    NotSent,
}

/// Whether a destination counts as reached.
#[derive(Clone, Copy, Debug, PartialEq, Eq, Structural)]
pub enum Reachability {
    Reachable,
    Unreachable,
    /// The probe says nothing about the destination.
    Undetermined,
}

/// How a probe's finding counts.
pub open spec fn classified(outcome: ProbeOutcome) -> Reachability {
    match outcome {
        ProbeOutcome::Responded { .. } => Reachability::Reachable,
        ProbeOutcome::ConnectFailed => Reachability::Unreachable,
        ProbeOutcome::TimedOut => Reachability::Unreachable,
        ProbeOutcome::BodyFailed => Reachability::Unreachable,
        ProbeOutcome::NotSent => Reachability::Undetermined,
    }
}

/// Says how a probe's finding counts.
pub fn classify(outcome: ProbeOutcome) -> (verdict: Reachability)
    ensures
        verdict == classified(outcome),
{
    match outcome {
        ProbeOutcome::Responded { .. } => Reachability::Reachable,
        ProbeOutcome::ConnectFailed => Reachability::Unreachable,
        ProbeOutcome::TimedOut => Reachability::Unreachable,
        ProbeOutcome::BodyFailed => Reachability::Unreachable,
        ProbeOutcome::NotSent => Reachability::Undetermined,
    }
}

/// Tells whether an address is to be probed at all.
pub fn should_probe(url: &str) -> (wanted: bool)
    ensures
        wanted == !is_probe_exempt(url@),
{
    !is_probe_exempt_url(url)
}

/// The address of the error view for a destination and the words of the
/// error, both percent-encoded.
pub open spec fn error_view_address(url: Seq<char>, words: Seq<char>) -> Seq<char> {
    "tauri://localhost/error.html?url="@ + percent_encoded(encode_utf8(url)) + "&err="@
        + percent_encoded(encode_utf8(words))
}

/// The script that sends a surface to the error view.
pub open spec fn error_view_script(url: Seq<char>, words: Seq<char>) -> Seq<char> {
    "window.location.replace('"@ + error_view_address(url, words) + "')"@
}

/// Builds the address of the error view for a destination and the words of
/// the error.
pub fn error_view_url(url: &str, words: &str) -> (address: String)
    ensures
        address@ == error_view_address(url@, words@),
{
    let mut address = String::from_str("tauri://localhost/error.html?url=");
    let encoded_url = percent_encode(url);
    address.append(encoded_url.as_str());
    address.append("&err=");
    let encoded_words = percent_encode(words);
    address.append(encoded_words.as_str());
    address
}

/// The correction that a probe's finding calls for: the script that sends the
/// tab to the error view, where the address is one that is probed, the
/// destination counts as unreachable and the label still names a live
/// surface; nothing otherwise.
pub open spec fn correction_for(
    surfaces: Seq<SurfaceModel>,
    label: Seq<char>,
    url: Seq<char>,
    outcome: ProbeOutcome,
    words: Seq<char>,
) -> Option<HostCommandModel> {
    if !is_probe_exempt(url) && classified(outcome) is Unreachable && resolved(
        surfaces,
        label,
    ) is Some {
        Some(HostCommandModel::Evaluate { label, script: error_view_script(url, words) })
    } else {
        None
    }
}

/// Decides what to do about a probe's finding.
///
/// `words` describes the error for the reader of the error view. A tab that
/// was closed while the probe ran gets no correction, and that is no error.
pub fn probe_and_correct(
    registry: &SurfaceRegistry,
    label: &str,
    url: &str,
    outcome: ProbeOutcome,
    words: &str,
) -> (correction: Option<HostCommand>)
    requires
        registry.wf(),
    ensures
        match correction {
            Some(command) => correction_for(registry@, label@, url@, outcome, words@) == Some(
                command@,
            ),
            None => correction_for(registry@, label@, url@, outcome, words@) is None,
        },
{
    if !should_probe(url) {
        return None;
    }
    match classify(outcome) {
        Reachability::Unreachable => {},
        _ => {
            return None;
        },
    }
    if registry.resolve(label).is_none() {
        return None;
    }
    let address = error_view_url(url, words);
    let mut script = String::from_str("window.location.replace('");
    script.append(address.as_str());
    script.append("')");
    Some(HostCommand::Evaluate { label: label.to_owned(), script })
}

/// A character that percent-encoding may write: the percent sign, or one that
/// it lets through.
pub open spec fn is_plain(c: char) -> bool {
    c == '%' || (c as u32 <= 0x7f && is_unreserved(c as u8))
}

/// Percent-encoded text holds nothing but percent signs, letters and digits
/// of ASCII and the four marks `-`, `.`, `_`, `~`. So neither an apostrophe
/// nor `&` nor `=` of a destination or of an error's words reaches the
/// address of the error view.
pub proof fn lemma_percent_encoded_is_plain(bytes: Seq<u8>)
    ensures
        forall|i: int|
            0 <= i < percent_encoded(bytes).len() ==> is_plain(
                #[trigger] percent_encoded(bytes)[i],
            ),
    decreases bytes.len(),
{
    if bytes.len() > 0 {
        let head = encoded_byte(bytes[0]);
        let tail = percent_encoded(bytes.drop_first());
        lemma_percent_encoded_is_plain(bytes.drop_first());
        lemma_encoded_byte_is_plain(bytes[0]);
        assert forall|i: int| 0 <= i < percent_encoded(bytes).len() implies is_plain(
            #[trigger] percent_encoded(bytes)[i],
        ) by {
            if i < head.len() {
                assert(percent_encoded(bytes)[i] == head[i]);
            } else {
                assert(percent_encoded(bytes)[i] == tail[i - head.len()]);
            }
        }
    }
}

/// One percent-encoded byte holds nothing but plain characters.
pub proof fn lemma_encoded_byte_is_plain(byte: u8)
    ensures
        forall|i: int| 0 <= i < encoded_byte(byte).len() ==> is_plain(#[trigger] encoded_byte(byte)[i]),
{
    let high = byte / 16;
    let low = byte % 16;
    assert(high < 16 && low < 16);
    lemma_hex_digit_is_plain(high);
    lemma_hex_digit_is_plain(low);
    if is_unreserved(byte) {
        assert(byte as char as u32 == byte as u32);
        assert(byte as char as u8 == byte);
    }
}

/// A digit of base sixteen is a plain character.
pub proof fn lemma_hex_digit_is_plain(value: u8)
    requires
        value < 16,
    ensures
        is_plain(hex_digit(value)),
{
    let digit: u8 = if value < 10 {
        (0x30 + value) as u8
    } else {
        (0x41 + value - 10) as u8
    };
    assert(digit as char as u32 == digit as u32);
    assert(digit as char as u8 == digit);
}

/// A probe that is under way: the surface it is for and the address it asks.
#[derive(Debug, PartialEq, Eq)]
pub struct ProbeTicket {
    pub label: String,
    pub url: String,
}

/// A [`ProbeTicket`] over sequences of characters.
pub struct ProbeTicketModel {
    pub label: Seq<char>,
    pub url: Seq<char>,
}

impl View for ProbeTicket {
    type V = ProbeTicketModel;

    open spec fn view(&self) -> ProbeTicketModel {
        ProbeTicketModel { label: self.label@, url: self.url@ }
    }
}

/// A probe of `url` for the surface `label` is under way.
pub open spec fn is_running(tickets: Seq<ProbeTicketModel>, label: Seq<char>, url: Seq<char>) -> bool {
    exists|i: int|
        0 <= i < tickets.len() && #[trigger] tickets[i] == (ProbeTicketModel { label, url })
}

/// No probe is listed twice.
pub open spec fn tickets_unique(tickets: Seq<ProbeTicketModel>) -> bool {
    forall|i: int, j: int|
        0 <= i < tickets.len() && 0 <= j < tickets.len() && i != j ==> #[trigger] tickets[i]
            != #[trigger] tickets[j]
}

/// A probe of `url` for the surface `label` is let through: the address is
/// one that is probed, and no probe of it for that surface is under way.
pub open spec fn lets_through(tickets: Seq<ProbeTicketModel>, label: Seq<char>, url: Seq<char>) -> bool {
    !is_probe_exempt(url) && !is_running(tickets, label, url)
}

/// The probes under way after one was asked for: longer by that one where it
/// was let through, and unchanged otherwise.
pub open spec fn after_begin(
    tickets: Seq<ProbeTicketModel>,
    label: Seq<char>,
    url: Seq<char>,
) -> Seq<ProbeTicketModel> {
    if lets_through(tickets, label, url) {
        tickets.push(ProbeTicketModel { label, url })
    } else {
        tickets
    }
}

/// The place of a probe among those under way.
pub open spec fn ticket_place(tickets: Seq<ProbeTicketModel>, label: Seq<char>, url: Seq<char>) -> int {
    choose|i: int|
        0 <= i < tickets.len() && #[trigger] tickets[i] == (ProbeTicketModel { label, url })
}

/// The probes under way after one has come back: without that one.
pub open spec fn after_settle(
    tickets: Seq<ProbeTicketModel>,
    label: Seq<char>,
    url: Seq<char>,
) -> Seq<ProbeTicketModel> {
    if is_running(tickets, label, url) {
        tickets.remove(ticket_place(tickets, label, url))
    } else {
        tickets
    }
}

/// The probes that are under way. An address is probed for a surface by one
/// probe at a time, however many navigations ask for it.
#[derive(Debug)]
pub struct ProbeLedger {
    running: Vec<ProbeTicket>,
}

impl View for ProbeLedger {
    type V = Seq<ProbeTicketModel>;

    closed spec fn view(&self) -> Seq<ProbeTicketModel> {
        self.running@.map_values(|t: ProbeTicket| t@)
    }
}

impl ProbeLedger {
    /// No probe is listed twice.
    pub open spec fn wf(&self) -> bool {
        tickets_unique(self@)
    }

    /// A ledger with no probe under way.
    pub fn new() -> (ledger: Self)
        ensures
            ledger.wf(),
            ledger@ == Seq::<ProbeTicketModel>::empty(),
    {
        let ledger = ProbeLedger { running: Vec::new() };
        assert(ledger@ =~= Seq::<ProbeTicketModel>::empty());
        ledger
    }

    fn position(&self, label: &String, url: &String) -> (place: Option<usize>)
        requires
            self.wf(),
        ensures
            match place {
                Some(i) => is_running(self@, label@, url@) && i as int == ticket_place(
                    self@,
                    label@,
                    url@,
                ),
                None => !is_running(self@, label@, url@),
            },
    {
        let mut i: usize = 0;
        while i < self.running.len()
            invariant
                i <= self.running.len(),
                self.wf(),
                forall|j: int|
                    0 <= j < i ==> #[trigger] self@[j] != (ProbeTicketModel {
                        label: label@,
                        url: url@,
                    }),
            decreases self.running.len() - i,
        {
            if self.running[i].label == *label && self.running[i].url == *url {
                proof {
                    assert(self@[i as int] == (ProbeTicketModel { label: label@, url: url@ }));
                    let k = ticket_place(self@, label@, url@);
                    assert(self@[k] == self@[i as int]);
                }
                return Some(i);
            }
            i += 1;
        }
        None
    }

    /// Asks for a probe of `url` for the surface `label` and tells whether it
    /// is to be made. It is made unless the address is one that is never
    /// probed, or the same probe is under way already.
    pub fn begin(&mut self, label: &str, url: &str) -> (made: bool)
        requires
            old(self).wf(),
        ensures
            final(self).wf(),
            made == lets_through(old(self)@, label@, url@),
            final(self)@ == after_begin(old(self)@, label@, url@),
    {
        if !should_probe(url) {
            return false;
        }
        let ticket = ProbeTicket { label: label.to_owned(), url: url.to_owned() };
        if self.position(&ticket.label, &ticket.url).is_some() {
            return false;
        }
        let ghost before = self@;
        self.running.push(ticket);
        proof {
            assert(self@ =~= before.push(ProbeTicketModel { label: label@, url: url@ }));
            assert forall|i: int, j: int|
                0 <= i < self@.len() && 0 <= j < self@.len() && i != j implies #[trigger] self@[i]
                != #[trigger] self@[j] by {
                if i < before.len() {
                    assert(self@[i] == before[i]);
                }
                if j < before.len() {
                    assert(self@[j] == before[j]);
                }
            }
        }
        true
    }

    /// Takes in that the probe of `url` for the surface `label` has come back.
    /// The same probe may be asked for again from then on.
    pub fn settle(&mut self, label: &str, url: &str)
        requires
            old(self).wf(),
        ensures
            final(self).wf(),
            final(self)@ == after_settle(old(self)@, label@, url@),
            !is_running(final(self)@, label@, url@),
    {
        let key_label = label.to_owned();
        let key_url = url.to_owned();
        match self.position(&key_label, &key_url) {
            Some(i) => {
                let ghost before = self@;
                self.running.remove(i);
                proof {
                    let rest = self@;
                    assert(rest =~= before.remove(i as int));
                    assert forall|a: int| 0 <= a < rest.len() implies #[trigger] rest[a]
                        == before[if a < i {
                        a
                    } else {
                        a + 1
                    }] by {}
                    assert forall|a: int, b: int|
                        0 <= a < rest.len() && 0 <= b < rest.len() && a != b implies #[trigger] rest[a]
                        != #[trigger] rest[b] by {
                        let a2 = if a < i {
                            a
                        } else {
                            a + 1
                        };
                        let b2 = if b < i {
                            b
                        } else {
                            b + 1
                        };
                        assert(rest[a] == before[a2] && rest[b] == before[b2]);
                    }
                    if is_running(rest, label@, url@) {
                        let k = ticket_place(rest, label@, url@);
                        let k2 = if k < i {
                            k
                        } else {
                            k + 1
                        };
                        assert(rest[k] == before[k2]);
                        assert(before[k2] == before[i as int]);
                    }
                }
            },
            None => {},
        }
    }
}

/// A probe that was let through is under way, so the same probe is not let
/// through a second time before it has come back; and once it has come back,
/// it is let through again.
pub proof fn lemma_one_probe_at_a_time(
    tickets: Seq<ProbeTicketModel>,
    label: Seq<char>,
    url: Seq<char>,
)
    requires
        tickets_unique(tickets),
    ensures
        !lets_through(after_begin(tickets, label, url), label, url),
        lets_through(tickets, label, url) ==> after_begin(
            after_begin(tickets, label, url),
            label,
            url,
        ) == after_begin(tickets, label, url),
        !is_probe_exempt(url) ==> is_running(after_begin(tickets, label, url), label, url),
        !is_probe_exempt(url) ==> lets_through(
            after_settle(after_begin(tickets, label, url), label, url),
            label,
            url,
        ),
{
    let ticket = ProbeTicketModel { label, url };
    let once = after_begin(tickets, label, url);
    if !is_probe_exempt(url) {
        if lets_through(tickets, label, url) {
            assert(once[tickets.len() as int] == ticket);
            assert forall|i: int, j: int|
                0 <= i < once.len() && 0 <= j < once.len() && i != j implies #[trigger] once[i]
                != #[trigger] once[j] by {
                if i < tickets.len() {
                    assert(once[i] == tickets[i]);
                }
                if j < tickets.len() {
                    assert(once[j] == tickets[j]);
                }
            }
        }
        assert(is_running(once, label, url));
        assert(tickets_unique(once));
        let k = ticket_place(once, label, url);
        let rest = once.remove(k);
        if is_running(rest, label, url) {
            let m = ticket_place(rest, label, url);
            let m2 = if m < k {
                m
            } else {
                m + 1
            };
            assert(rest[m] == once[m2]);
            assert(once[m2] == once[k]);
        }
    }
}

} // verus!
