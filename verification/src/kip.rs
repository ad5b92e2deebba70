//! Kip, the little command language: its grammar and its rules of meaning.
//!
//! An expression is a command or a literal. A literal is text between
//! quotation marks, with the case it stands in after it in square brackets,
//! such as `"sayfa" [Belirtme]`. A command is a verb, the mood it is said in
//! between angle brackets, and any number of literals, such as
//! `yukle <Emir> "sayfa" [Belirtme]`. Blanks may stand between the parts. A
//! literal without a case stands in the nominative, and a command without a
//! mood is an order.
//!
//! Reading stops where the expression ends; what follows it is handed back
//! unread.

use vstd::prelude::*;
use vstd::string::StringExecFns;
use crate::text::chars_of;
use crate::text::is_alphanumeric_char;
use crate::text::matches_at;
use crate::text::occurs_at;
use crate::text::slice;
use crate::text::string_of;

verus! {

/// The case that a literal stands in.
#[derive(Clone, Copy, Debug, PartialEq, Eq, Structural)]
pub enum Case {
    /// `[Yalin]`
    Nominative,
    /// `[Belirtme]`
    Accusative,
    /// `[Yonelme]`
    Dative,
    /// `[Bulunma]`
    Locative,
    /// `[Ayrilma]`
    Ablative,
    /// `[Vasita]`
    Instrumental,
}

/// The mood that a command is said in.
#[derive(Clone, Copy, Debug, PartialEq, Eq, Structural)]
pub enum Mood {
    /// `<Haber>`
    Indicative,
    /// `<Emir>`
    Imperative,
    /// `<Istek>`
    Optative,
    /// `<Sart>`
    Conditional,
}

/// An expression.
#[derive(Debug, PartialEq, Eq)]
pub enum Expr {
    Literal { content: String, case: Case },
    Command { verb: String, mood: Mood, args: Vec<Expr> },
}

/// A literal over a sequence of characters.
pub struct LiteralModel {
    pub content: Seq<char>,
    pub case: Case,
}

/// A command over sequences.
pub struct CommandModel {
    pub verb: Seq<char>,
    pub mood: Mood,
    pub args: Seq<LiteralModel>,
}

/// An expression as the grammar yields it: the arguments of a command are
/// literals.
pub enum ExprModel {
    Literal(LiteralModel),
    Command(CommandModel),
}

/// The literal that an expression is, if it is one.
pub open spec fn literal_view(e: Expr) -> Option<LiteralModel> {
    match e {
        Expr::Literal { content, case } => Some(LiteralModel { content: content@, case }),
        Expr::Command { .. } => None,
    }
}

/// Every expression of the list is a literal.
pub open spec fn all_literals(args: Seq<Expr>) -> bool {
    forall|i: int| 0 <= i < args.len() ==> literal_view(#[trigger] args[i]) is Some
}

/// The literals of a list of expressions.
pub open spec fn literal_views(args: Seq<Expr>) -> Seq<LiteralModel> {
    args.map_values(|a: Expr| literal_view(a)->0)
}

/// The expression as the grammar yields it, if it is of that shape.
pub open spec fn expr_view(e: Expr) -> Option<ExprModel> {
    match e {
        Expr::Literal { content, case } => Some(
            ExprModel::Literal(LiteralModel { content: content@, case }),
        ),
        Expr::Command { verb, mood, args } => if all_literals(args@) {
            Some(ExprModel::Command(CommandModel { verb: verb@, mood, args: literal_views(args@) }))
        } else {
            None
        },
    }
}

/// What was read, of a reading that came to something.
pub open spec fn value_of<T>(found: Option<(T, int)>) -> T {
    match found {
        Some((value, _)) => value,
        None => arbitrary(),
    }
}

/// The place after what was read, of a reading that came to something.
pub open spec fn next_of<T>(found: Option<(T, int)>) -> int {
    match found {
        Some((_, next)) => next,
        None => 0,
    }
}

/// A blank: a space, a tabulator, a carriage return or a line feed.
pub open spec fn is_space(c: char) -> bool {
    c == ' ' || c == '\t' || c == '\r' || c == '\n'
}

/// Where the run of blanks that begins at `at` ends.
pub open spec fn spaces_end(s: Seq<char>, at: int) -> int
    decreases s.len() - at,
{
    if 0 <= at < s.len() && is_space(s[at]) {
        spaces_end(s, at + 1)
    } else {
        at
    }
}

/// Where the run of letters and digits that begins at `at` ends.
pub open spec fn word_end(s: Seq<char>, at: int) -> int
    decreases s.len() - at,
{
    if 0 <= at < s.len() && is_alphanumeric_char(s[at]) {
        word_end(s, at + 1)
    } else {
        at
    }
}

/// Where the run of characters other than the quotation mark that begins at
/// `at` ends.
pub open spec fn text_end(s: Seq<char>, at: int) -> int
    decreases s.len() - at,
{
    if 0 <= at < s.len() && s[at] != '"' {
        text_end(s, at + 1)
    } else {
        at
    }
}

/// `value`, and the place after the closing mark, where `close` stands at
/// `at`.
pub open spec fn closed_by<T>(s: Seq<char>, at: int, close: char, value: T) -> Option<(T, int)> {
    if 0 <= at < s.len() && s[at] == close {
        Some((value, at + 1))
    } else {
        None
    }
}

/// The case that is written at `at`, with the place after it. The first name
/// that stands after the bracket decides; it must be followed by the closing
/// bracket.
pub open spec fn case_at(s: Seq<char>, at: int) -> Option<(Case, int)> {
    if !(0 <= at < s.len() && s[at] == '[') {
        None
    } else if occurs_at(s, at + 1, "Yalin"@) {
        closed_by(s, at + 1 + "Yalin"@.len(), ']', Case::Nominative)
    } else if occurs_at(s, at + 1, "Belirtme"@) {
        closed_by(s, at + 1 + "Belirtme"@.len(), ']', Case::Accusative)
    } else if occurs_at(s, at + 1, "Yonelme"@) {
        closed_by(s, at + 1 + "Yonelme"@.len(), ']', Case::Dative)
    } else if occurs_at(s, at + 1, "Bulunma"@) {
        closed_by(s, at + 1 + "Bulunma"@.len(), ']', Case::Locative)
    } else if occurs_at(s, at + 1, "Ayrilma"@) {
        closed_by(s, at + 1 + "Ayrilma"@.len(), ']', Case::Ablative)
    } else if occurs_at(s, at + 1, "Vasita"@) {
        closed_by(s, at + 1 + "Vasita"@.len(), ']', Case::Instrumental)
    } else {
        None
    }
}

/// The mood that is written at `at`, with the place after it.
pub open spec fn mood_at(s: Seq<char>, at: int) -> Option<(Mood, int)> {
    if !(0 <= at < s.len() && s[at] == '<') {
        None
    } else if occurs_at(s, at + 1, "Haber"@) {
        closed_by(s, at + 1 + "Haber"@.len(), '>', Mood::Indicative)
    } else if occurs_at(s, at + 1, "Emir"@) {
        closed_by(s, at + 1 + "Emir"@.len(), '>', Mood::Imperative)
    } else if occurs_at(s, at + 1, "Istek"@) {
        closed_by(s, at + 1 + "Istek"@.len(), '>', Mood::Optative)
    } else if occurs_at(s, at + 1, "Sart"@) {
        closed_by(s, at + 1 + "Sart"@.len(), '>', Mood::Conditional)
    } else {
        None
    }
}

/// The literal that is written at `at`, with the place after it.
///
/// The text between the quotation marks must not be empty. Blanks after the
/// closing mark belong to the literal, and so does a case that follows them.
pub open spec fn literal_at(s: Seq<char>, at: int) -> Option<(LiteralModel, int)> {
    if !(0 <= at < s.len() && s[at] == '"') {
        None
    } else {
        let end = text_end(s, at + 1);
        if end == at + 1 || end >= s.len() {
            None
        } else {
            let content = s.subrange(at + 1, end);
            let after = spaces_end(s, end + 1);
            match case_at(s, after) {
                Some((case, next)) => Some((LiteralModel { content, case }, next)),
                None => Some((LiteralModel { content, case: Case::Nominative }, after)),
            }
        }
    }
}

/// The literals that are written from `at` on, blanks before each, with the
/// place after the last of them.
pub open spec fn literals_from(s: Seq<char>, at: int) -> (Seq<LiteralModel>, int)
    decreases s.len() - at,
{
    match literal_at(s, spaces_end(s, at)) {
        Some((literal, next)) => {
            proof {
                lemma_spaces_end_bounds(s, at);
                lemma_literal_advances(s, spaces_end(s, at));
            }
            let rest = literals_from(s, next);
            (seq![literal] + rest.0, rest.1)
        },
        None => (Seq::empty(), at),
    }
}

/// The command that is written at `at`, with the place after it.
pub open spec fn command_at(s: Seq<char>, at: int) -> Option<(CommandModel, int)> {
    let verb_end = word_end(s, at);
    if verb_end == at {
        None
    } else {
        let before_mood = spaces_end(s, verb_end);
        let (mood, after_mood) = match mood_at(s, before_mood) {
            Some((mood, next)) => (mood, next),
            None => (Mood::Imperative, before_mood),
        };
        let (args, end) = literals_from(s, spaces_end(s, after_mood));
        Some((CommandModel { verb: s.subrange(at, verb_end), mood, args }, end))
    }
}

/// The expression that `s` begins with, blanks before it, with the place
/// after it; nothing where `s` begins with no expression.
pub open spec fn expr_at(s: Seq<char>) -> Option<(ExprModel, int)> {
    let at = spaces_end(s, 0);
    match command_at(s, at) {
        Some((command, next)) => Some((ExprModel::Command(command), next)),
        None => match literal_at(s, at) {
            Some((literal, next)) => Some((ExprModel::Literal(literal), next)),
            None => None,
        },
    }
}

/// A run of blanks ends at or after its beginning, and inside the text.
pub proof fn lemma_spaces_end_bounds(s: Seq<char>, at: int)
    ensures
        at <= spaces_end(s, at),
        at <= s.len() ==> spaces_end(s, at) <= s.len(),
    decreases s.len() - at,
{
    if 0 <= at < s.len() && is_space(s[at]) {
        lemma_spaces_end_bounds(s, at + 1);
    }
}

/// A run of text ends at or after its beginning, and inside the text.
pub proof fn lemma_text_end_bounds(s: Seq<char>, at: int)
    ensures
        at <= text_end(s, at),
        at <= s.len() ==> text_end(s, at) <= s.len(),
    decreases s.len() - at,
{
    if 0 <= at < s.len() && s[at] != '"' {
        lemma_text_end_bounds(s, at + 1);
    }
}

/// A literal that is read takes at least its two quotation marks and one
/// character between them, and ends inside the text.
pub proof fn lemma_literal_advances(s: Seq<char>, at: int)
    ensures
        literal_at(s, at) is Some ==> at + 3 <= next_of(literal_at(s, at)) <= s.len(),
{
    if literal_at(s, at) is Some {
        let end = text_end(s, at + 1);
        lemma_text_end_bounds(s, at + 1);
        lemma_spaces_end_bounds(s, end + 1);
    }
}

fn skip_spaces(s: &Vec<char>, at: usize) -> (end: usize)
    requires
        at <= s.len(),
    ensures
        end == spaces_end(s@, at as int),
        at <= end <= s.len(),
{
    let mut i: usize = at;
    while i < s.len() && (s[i] == ' ' || s[i] == '\t' || s[i] == '\r' || s[i] == '\n')
        invariant
            at <= i <= s.len(),
            spaces_end(s@, i as int) == spaces_end(s@, at as int),
        decreases s.len() - i,
    {
        i += 1;
    }
    i
}

fn skip_word(s: &Vec<char>, at: usize) -> (end: usize)
    requires
        at <= s.len(),
    ensures
        end == word_end(s@, at as int),
        at <= end <= s.len(),
{
    let mut i: usize = at;
    while i < s.len() && s[i].is_alphanumeric()
        invariant
            at <= i <= s.len(),
            word_end(s@, i as int) == word_end(s@, at as int),
        decreases s.len() - i,
    {
        i += 1;
    }
    i
}

fn skip_text(s: &Vec<char>, at: usize) -> (end: usize)
    requires
        at <= s.len(),
    ensures
        end == text_end(s@, at as int),
        at <= end <= s.len(),
{
    let mut i: usize = at;
    while i < s.len() && s[i] != '"'
        invariant
            at <= i <= s.len(),
            text_end(s@, i as int) == text_end(s@, at as int),
        decreases s.len() - i,
    {
        i += 1;
    }
    i
}

/// Tells whether `name` stands at `at`, and if so, whether `close` follows
/// it: the place after `close`, or nothing.
fn name_then(s: &Vec<char>, at: usize, name: &str, close: char) -> (answer: Option<Option<usize>>)
    requires
        at <= s.len(),
    ensures
        match answer {
            Some(closed) => occurs_at(s@, at as int, name@) && match closed {
                Some(next) => closed_by(s@, at + name@.len(), close, ()) == Some(((), next as int))
                    && next <= s.len(),
                None => closed_by(s@, at + name@.len(), close, ()) is None,
            },
            None => !occurs_at(s@, at as int, name@),
        },
{
    let letters = chars_of(name);
    if !matches_at(s, at, &letters) {
        return None;
    }
    let width: usize = letters.len();
    let end: usize = s.len();
    assert(at + width <= end);
    let after: usize = at + width;
    if after < end && s[after] == close {
        Some(Some(after + 1))
    } else {
        Some(None)
    }
}

fn read_case(s: &Vec<char>, at: usize) -> (found: Option<(Case, usize)>)
    requires
        at <= s.len(),
    ensures
        match found {
            Some((case, next)) => case_at(s@, at as int) == Some((case, next as int)) && next
                <= s.len(),
            None => case_at(s@, at as int) is None,
        },
{
    if !(at < s.len() && s[at] == '[') {
        return None;
    }
    let inside: usize = at + 1;
    match name_then(s, inside, "Yalin", ']') {
        Some(closed) => {
            return match closed {
                Some(next) => Some((Case::Nominative, next)),
                None => None,
            };
        },
        None => {},
    }
    match name_then(s, inside, "Belirtme", ']') {
        Some(closed) => {
            return match closed {
                Some(next) => Some((Case::Accusative, next)),
                None => None,
            };
        },
        None => {},
    }
    match name_then(s, inside, "Yonelme", ']') {
        Some(closed) => {
            return match closed {
                Some(next) => Some((Case::Dative, next)),
                None => None,
            };
        },
        None => {},
    }
    match name_then(s, inside, "Bulunma", ']') {
        Some(closed) => {
            return match closed {
                Some(next) => Some((Case::Locative, next)),
                None => None,
            };
        },
        None => {},
    }
    match name_then(s, inside, "Ayrilma", ']') {
        Some(closed) => {
            return match closed {
                Some(next) => Some((Case::Ablative, next)),
                None => None,
            };
        },
        None => {},
    }
    match name_then(s, inside, "Vasita", ']') {
        Some(closed) => {
            return match closed {
                Some(next) => Some((Case::Instrumental, next)),
                None => None,
            };
        },
        None => {},
    }
    None
}

fn read_mood(s: &Vec<char>, at: usize) -> (found: Option<(Mood, usize)>)
    requires
        at <= s.len(),
    ensures
        match found {
            Some((mood, next)) => mood_at(s@, at as int) == Some((mood, next as int)) && next
                <= s.len(),
            None => mood_at(s@, at as int) is None,
        },
{
    if !(at < s.len() && s[at] == '<') {
        return None;
    }
    let inside: usize = at + 1;
    match name_then(s, inside, "Haber", '>') {
        Some(closed) => {
            return match closed {
                Some(next) => Some((Mood::Indicative, next)),
                None => None,
            };
        },
        None => {},
    }
    match name_then(s, inside, "Emir", '>') {
        Some(closed) => {
            return match closed {
                Some(next) => Some((Mood::Imperative, next)),
                None => None,
            };
        },
        None => {},
    }
    match name_then(s, inside, "Istek", '>') {
        Some(closed) => {
            return match closed {
                Some(next) => Some((Mood::Optative, next)),
                None => None,
            };
        },
        None => {},
    }
    match name_then(s, inside, "Sart", '>') {
        Some(closed) => {
            return match closed {
                Some(next) => Some((Mood::Conditional, next)),
                None => None,
            };
        },
        None => {},
    }
    None
}

fn read_literal(s: &Vec<char>, at: usize) -> (found: Option<(Expr, usize)>)
    requires
        at <= s.len(),
    ensures
        match found {
            Some((e, next)) => literal_view(e) is Some && literal_at(s@, at as int) == Some(
                (literal_view(e)->0, next as int),
            ) && at < next <= s.len(),
            None => literal_at(s@, at as int) is None,
        },
{
    if !(at < s.len() && s[at] == '"') {
        return None;
    }
    let begin: usize = at + 1;
    let end = skip_text(s, begin);
    if end == begin || end >= s.len() {
        return None;
    }
    let content = string_of(&slice(s, begin, end));
    let after = skip_spaces(s, end + 1);
    match read_case(s, after) {
        Some((case, next)) => Some((Expr::Literal { content, case }, next)),
        None => Some((Expr::Literal { content, case: Case::Nominative }, after)),
    }
}

fn read_command(s: &Vec<char>, at: usize) -> (found: Option<(Expr, usize)>)
    requires
        at <= s.len(),
    ensures
        match found {
            Some((e, next)) => expr_view(e) is Some && command_at(s@, at as int) is Some
                && expr_view(e)->0 == ExprModel::Command(value_of(command_at(s@, at as int)))
                && next == next_of(command_at(s@, at as int)) && at < next <= s.len(),
            None => command_at(s@, at as int) is None,
        },
{
    let verb_end = skip_word(s, at);
    if verb_end == at {
        return None;
    }
    let verb = string_of(&slice(s, at, verb_end));
    let before_mood = skip_spaces(s, verb_end);
    let (mood, after_mood) = match read_mood(s, before_mood) {
        Some((mood, next)) => (mood, next),
        None => (Mood::Imperative, before_mood),
    };
    let first = skip_spaces(s, after_mood);
    let mut args: Vec<Expr> = Vec::new();
    let mut cur: usize = first;
    let mut more = true;
    proof {
        assert(literal_views(args@) + literals_from(s@, cur as int).0 =~= literals_from(
            s@,
            first as int,
        ).0);
    }
    while more
        invariant
            first <= cur <= s.len(),
            all_literals(args@),
            literal_views(args@) + literals_from(s@, cur as int).0 == literals_from(
                s@,
                first as int,
            ).0,
            literals_from(s@, cur as int).1 == literals_from(s@, first as int).1,
            !more ==> literals_from(s@, cur as int) == (Seq::<LiteralModel>::empty(), cur as int),
        decreases s.len() - cur, if more { 1int } else { 0int },
    {
        let at_literal = skip_spaces(s, cur);
        match read_literal(s, at_literal) {
            Some((literal, next)) => {
                let ghost before = args@;
                let ghost model = literal_view(literal)->0;
                args.push(literal);
                proof {
                    let rest = literals_from(s@, next as int);
                    assert(literals_from(s@, cur as int) == (seq![model] + rest.0, rest.1));
                    assert(literal_views(args@) =~= literal_views(before).push(model));
                    assert(literal_views(args@) + rest.0 =~= literal_views(before) + (seq![model]
                        + rest.0));
                    assert forall|i: int| 0 <= i < args@.len() implies literal_view(
                        #[trigger] args@[i],
                    ) is Some by {
                        if i < before.len() {
                            assert(args@[i] == before[i]);
                        }
                    }
                }
                cur = next;
            },
            None => {
                more = false;
            },
        }
    }
    proof {
        assert(literal_views(args@) + Seq::<LiteralModel>::empty() =~= literal_views(args@));
    }
    Some((Expr::Command { verb, mood, args }, cur))
}

/// An expression that was read, and what follows it in the text.
#[derive(Debug, PartialEq, Eq)]
pub struct Parsed {
    pub expr: Expr,
    /// The text after the expression, unread.
    pub rest: String,
}

/// Reads the expression that `input` begins with.
///
/// Nothing comes back where `input` begins with no expression: where, after
/// its leading blanks, it has neither a letter or digit nor a literal.
pub fn parse_expr(input: &str) -> (parsed: Option<Parsed>)
    ensures
        match parsed {
            Some(p) => expr_at(input@) is Some && expr_view(p.expr) == Some(
                value_of(expr_at(input@)),
            ) && 0 <= next_of(expr_at(input@)) <= input@.len() && p.rest@ == input@.skip(
                next_of(expr_at(input@)),
            ),
            None => expr_at(input@) is None,
        },
{
    let s = chars_of(input);
    let at = skip_spaces(&s, 0);
    let found = match read_command(&s, at) {
        Some(found) => Some(found),
        None => read_literal(&s, at),
    };
    match found {
        Some((expr, next)) => {
            let rest = slice(&s, next, s.len());
            assert(rest@ =~= s@.skip(next as int));
            Some(Parsed { expr, rest: string_of(&rest) })
        },
        None => None,
    }
}

/// Why a command means nothing.
#[derive(Clone, Copy, Debug, PartialEq, Eq, Structural)]
pub enum SemanticError {
    /// `yukle` loads a thing, and the thing stands in another case than the
    /// accusative.
    LoadNeedsAccusative { found: Case },
    /// `git` goes to a place, and the place stands in another case than the
    /// dative.
    GoNeedsDative { found: Case },
}

/// The place of the first literal from `from` on that stands in another case
/// than `wanted`, or the length of the list where there is none.
pub open spec fn first_misfit(args: Seq<Expr>, wanted: Case, from: int) -> int
    decreases args.len() - from,
{
    if !(0 <= from < args.len()) {
        args.len() as int
    } else if literal_view(args[from]) is Some && literal_view(args[from])->0.case != wanted {
        from
    } else {
        first_misfit(args, wanted, from + 1)
    }
}

/// The case of the first literal of the list that stands in another case
/// than `wanted`.
pub open spec fn misfit_case(args: Seq<Expr>, wanted: Case) -> Option<Case> {
    let i = first_misfit(args, wanted, 0);
    if 0 <= i < args.len() {
        Some(literal_view(args[i])->0.case)
    } else {
        None
    }
}

/// What the rules of meaning say of an expression.
///
/// The verb `yukle` wants each of its literals in the accusative and the verb
/// `git` wants each of its in the dative; the first literal that stands in
/// another case is the error. Every other expression passes.
pub open spec fn validated(e: Expr) -> Result<(), SemanticError> {
    match e {
        Expr::Command { verb, mood, args } => if verb@ == "yukle"@ {
            match misfit_case(args@, Case::Accusative) {
                Some(found) => Err(SemanticError::LoadNeedsAccusative { found }),
                None => Ok(()),
            }
        } else if verb@ == "git"@ {
            match misfit_case(args@, Case::Dative) {
                Some(found) => Err(SemanticError::GoNeedsDative { found }),
                None => Ok(()),
            }
        } else {
            Ok(())
        },
        Expr::Literal { .. } => Ok(()),
    }
}

fn find_misfit(args: &Vec<Expr>, wanted: Case) -> (found: Option<Case>)
    ensures
        found == misfit_case(args@, wanted),
{
    let mut i: usize = 0;
    while i < args.len()
        invariant
            i <= args.len(),
            first_misfit(args@, wanted, i as int) == first_misfit(args@, wanted, 0),
        decreases args.len() - i,
    {
        match &args[i] {
            Expr::Literal { content: _, case } => {
                if *case != wanted {
                    return Some(*case);
                }
            },
            Expr::Command { .. } => {},
        }
        i += 1;
    }
    None
}

/// Holds an expression against the rules of meaning.
pub fn validate_semantics(cmd: &Expr) -> (verdict: Result<(), SemanticError>)
    ensures
        verdict == validated(*cmd),
{
    match cmd {
        Expr::Command { verb, mood: _, args } => {
            let load = String::from_str("yukle");
            let go = String::from_str("git");
            if *verb == load {
                match find_misfit(args, Case::Accusative) {
                    Some(found) => Err(SemanticError::LoadNeedsAccusative { found }),
                    None => Ok(()),
                }
            } else if *verb == go {
                match find_misfit(args, Case::Dative) {
                    Some(found) => Err(SemanticError::GoNeedsDative { found }),
                    None => Ok(()),
                }
            } else {
                Ok(())
            }
        },
        Expr::Literal { .. } => Ok(()),
    }
}

/// The English name of a case.
pub open spec fn case_name(case: Case) -> Seq<char> {
    match case {
        Case::Nominative => "Nominative"@,
        Case::Accusative => "Accusative"@,
        Case::Dative => "Dative"@,
        Case::Locative => "Locative"@,
        Case::Ablative => "Ablative"@,
        Case::Instrumental => "Instrumental"@,
    }
}

impl Case {
    /// The English name of the case.
    pub fn name(&self) -> (name: &'static str)
        ensures
            name@ == case_name(*self),
    {
        match self {
            Case::Nominative => "Nominative",
            Case::Accusative => "Accusative",
            Case::Dative => "Dative",
            Case::Locative => "Locative",
            Case::Ablative => "Ablative",
            Case::Instrumental => "Instrumental",
        }
    }
}

/// The English name of a mood.
pub open spec fn mood_name(mood: Mood) -> Seq<char> {
    match mood {
        Mood::Indicative => "Indicative"@,
        Mood::Imperative => "Imperative"@,
        Mood::Optative => "Optative"@,
        Mood::Conditional => "Conditional"@,
    }
}

impl Mood {
    /// The English name of the mood.
    pub fn name(&self) -> (name: &'static str)
        ensures
            name@ == mood_name(*self),
    {
        match self {
            Mood::Indicative => "Indicative",
            Mood::Imperative => "Imperative",
            Mood::Optative => "Optative",
            Mood::Conditional => "Conditional",
        }
    }
}

/// The words of a semantic error.
pub open spec fn error_words(error: SemanticError) -> Seq<char> {
    match error {
        SemanticError::LoadNeedsAccusative { found } =>
            "Semantic Error: 'yukle' (Load) expects [Belirtme] (Accusative) object, found "@
                + case_name(found) + "."@,
        SemanticError::GoNeedsDative { found } =>
            "Semantic Error: 'git' (Go) expects [Yonelme] (Dative) target, found "@ + case_name(
                found,
            ) + "."@,
    }
}

impl SemanticError {
    /// The words of the error, for the user.
    pub fn message(&self) -> (words: String)
        ensures
            words@ == error_words(*self),
    {
        match self {
            SemanticError::LoadNeedsAccusative { found } => {
                let mut words = String::from_str(
                    "Semantic Error: 'yukle' (Load) expects [Belirtme] (Accusative) object, found ",
                );
                words.append(found.name());
                words.append(".");
                words
            },
            SemanticError::GoNeedsDative { found } => {
                let mut words = String::from_str(
                    "Semantic Error: 'git' (Go) expects [Yonelme] (Dative) target, found ",
                );
                words.append(found.name());
                words.append(".");
                words
            },
        }
    }
}

/// What evaluating a literal says: its text and its case.
pub open spec fn literal_words(content: Seq<char>, case: Case) -> Seq<char> {
    "Literal: "@ + content + " ["@ + case_name(case) + "]"@
}

/// Says what evaluating a literal comes to.
pub fn describe_literal(content: &str, case: Case) -> (words: String)
    ensures
        words@ == literal_words(content@, case),
{
    let mut words = String::from_str("Literal: ");
    words.append(content);
    words.append(" [");
    words.append(case.name());
    words.append("]");
    words
}

} // verus!
