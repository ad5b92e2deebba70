use lumina::kip::describe_literal;
use lumina::kip::parse_expr;
use lumina::kip::validate_semantics;
use lumina::kip::Case;
use lumina::kip::Expr;
use lumina::kip::Mood;
use lumina::kip::Parsed;
use lumina::kip::SemanticError;
use nom::branch::alt;
use nom::bytes::complete::is_not;
use nom::bytes::complete::tag;
use nom::bytes::complete::take_while1;
use nom::character::complete::char as one;
use nom::character::complete::multispace0;
use nom::combinator::opt;
use nom::combinator::value;
use nom::multi::many0;
use nom::sequence::delimited;
use nom::sequence::preceded;
use nom::IResult;

fn s(text: &str) -> String {
    text.to_string()
}

fn literal(content: &str, case: Case) -> Expr {
    Expr::Literal { content: s(content), case }
}

fn command(verb: &str, mood: Mood, args: Vec<Expr>) -> Expr {
    Expr::Command { verb: s(verb), mood, args }
}

fn parsed(expr: Expr, rest: &str) -> Option<Parsed> {
    Some(Parsed { expr, rest: s(rest) })
}

// The same grammar, written with combinators, to hold the reader against.

fn nom_case(input: &str) -> IResult<&str, Case> {
    delimited(
        one('['),
        alt((
            value(Case::Nominative, tag("Yalin")),
            value(Case::Accusative, tag("Belirtme")),
            value(Case::Dative, tag("Yonelme")),
            value(Case::Locative, tag("Bulunma")),
            value(Case::Ablative, tag("Ayrilma")),
            value(Case::Instrumental, tag("Vasita")),
        )),
        one(']'),
    )(input)
}

fn nom_mood(input: &str) -> IResult<&str, Mood> {
    delimited(
        one('<'),
        alt((
            value(Mood::Indicative, tag("Haber")),
            value(Mood::Imperative, tag("Emir")),
            value(Mood::Optative, tag("Istek")),
            value(Mood::Conditional, tag("Sart")),
        )),
        one('>'),
    )(input)
}

fn nom_literal(input: &str) -> IResult<&str, Expr> {
    let (input, content) = delimited(one('"'), is_not("\""), one('"'))(input)?;
    let (input, _) = multispace0(input)?;
    let (input, case) = opt(nom_case)(input)?;
    Ok((input, Expr::Literal { content: content.to_string(), case: case.unwrap_or(Case::Nominative) }))
}

fn nom_command(input: &str) -> IResult<&str, Expr> {
    let (input, verb) = take_while1(|c: char| c.is_alphanumeric())(input)?;
    let (input, _) = multispace0(input)?;
    let (input, mood) = opt(nom_mood)(input)?;
    let (input, _) = multispace0(input)?;
    let (input, args) = many0(preceded(multispace0, nom_literal))(input)?;
    Ok((input, Expr::Command { verb: verb.to_string(), mood: mood.unwrap_or(Mood::Imperative), args }))
}

fn nom_expr(input: &str) -> Option<Parsed> {
    match preceded(multispace0, alt((nom_command, nom_literal)))(input) {
        Ok((rest, expr)) => Some(Parsed { expr, rest: rest.to_string() }),
        Err(_) => None,
    }
}

#[test]
fn literal_with_case() {
    assert_eq!(
        parse_expr("\"sayfa\" [Belirtme]"),
        parsed(literal("sayfa", Case::Accusative), "")
    );
    assert_eq!(parse_expr("\"ev\"[Yonelme]x"), parsed(literal("ev", Case::Dative), "x"));
}

#[test]
fn literal_without_case_is_nominative() {
    assert_eq!(parse_expr("\"sayfa\""), parsed(literal("sayfa", Case::Nominative), ""));
    assert_eq!(parse_expr("  \"a b\"  rest"), parsed(literal("a b", Case::Nominative), "rest"));
    assert_eq!(
        parse_expr("\"x\" [Yalin"),
        parsed(literal("x", Case::Nominative), "[Yalin")
    );
    assert_eq!(
        parse_expr("\"x\" [Bilinmez]"),
        parsed(literal("x", Case::Nominative), "[Bilinmez]")
    );
}

#[test]
fn every_case_and_mood_is_read() {
    let cases = [
        ("Yalin", Case::Nominative),
        ("Belirtme", Case::Accusative),
        ("Yonelme", Case::Dative),
        ("Bulunma", Case::Locative),
        ("Ayrilma", Case::Ablative),
        ("Vasita", Case::Instrumental),
    ];
    for (name, case) in cases {
        let input = format!("\"x\" [{}]", name);
        assert_eq!(parse_expr(&input), parsed(literal("x", case), ""));
    }
    let moods = [
        ("Haber", Mood::Indicative),
        ("Emir", Mood::Imperative),
        ("Istek", Mood::Optative),
        ("Sart", Mood::Conditional),
    ];
    for (name, mood) in moods {
        let input = format!("ac <{}>", name);
        assert_eq!(parse_expr(&input), parsed(command("ac", mood, vec![]), ""));
    }
}

#[test]
fn command_with_mood_and_arguments() {
    assert_eq!(
        parse_expr("yukle <Emir> \"sayfa\" [Belirtme] \"resim\" [Belirtme]"),
        parsed(
            command(
                "yukle",
                Mood::Imperative,
                vec![literal("sayfa", Case::Accusative), literal("resim", Case::Accusative)]
            ),
            ""
        )
    );
    assert_eq!(
        parse_expr("git<Istek>\"ev\"[Yonelme]"),
        parsed(command("git", Mood::Optative, vec![literal("ev", Case::Dative)]), "")
    );
}

#[test]
fn command_without_mood_is_an_order() {
    assert_eq!(parse_expr("dur"), parsed(command("dur", Mood::Imperative, vec![]), ""));
    assert_eq!(
        parse_expr("git \"ev\""),
        parsed(command("git", Mood::Imperative, vec![literal("ev", Case::Nominative)]), "")
    );
    assert_eq!(
        parse_expr("git <Emir \"ev\""),
        parsed(command("git", Mood::Imperative, vec![]), "<Emir \"ev\"")
    );
}

#[test]
fn reading_stops_where_the_expression_ends() {
    assert_eq!(
        parse_expr("git \"ev\" [Yonelme] ve sonra"),
        parsed(command("git", Mood::Imperative, vec![literal("ev", Case::Dative)]), " ve sonra")
    );
    assert_eq!(
        parse_expr("git \"ev\"   \"\""),
        parsed(command("git", Mood::Imperative, vec![literal("ev", Case::Nominative)]), "\"\"")
    );
    assert_eq!(
        parse_expr("git   \"open"),
        parsed(command("git", Mood::Imperative, vec![]), "\"open")
    );
}

#[test]
fn what_is_no_expression_is_refused() {
    for input in ["", "   ", "\"\"", "\"open", "[Yalin]", "<Emir> git", "-x", "\"", " \t\n"] {
        assert_eq!(parse_expr(input), None, "{:?}", input);
    }
}

#[test]
fn letters_of_any_script_make_a_verb() {
    assert_eq!(
        parse_expr("y\u{fc}kle42 \"\u{e7}ay\""),
        parsed(
            command("y\u{fc}kle42", Mood::Imperative, vec![literal("\u{e7}ay", Case::Nominative)]),
            ""
        )
    );
}

#[test]
fn reader_agrees_with_the_combinators() {
    let pieces = [
        "", " ", "\t", "\n", "git", "yukle", "a1", "\"ev\"", "\"a b\"", "\"\"", "\"", "[Yalin]",
        "[Belirtme]", "[Yonelme]", "[Bulunma]", "[Ayrilma]", "[Vasita]", "[Yok]", "[Yalin",
        "<Haber>", "<Emir>", "<Istek>", "<Sart>", "<Yok>", "<Emir", "-", "\u{e7}", "]", ">",
    ];
    let mut count = 0;
    for a in pieces {
        for b in pieces {
            for c in pieces {
                let input = format!("{}{}{}", a, b, c);
                assert_eq!(parse_expr(&input), nom_expr(&input), "{:?}", input);
                let spaced = format!("{} {}  {}", a, b, c);
                assert_eq!(parse_expr(&spaced), nom_expr(&spaced), "{:?}", spaced);
                count += 2;
            }
        }
    }
    assert_eq!(count, 2 * 29 * 29 * 29);
}

#[test]
fn load_wants_the_accusative() {
    let good = command(
        "yukle",
        Mood::Imperative,
        vec![literal("a", Case::Accusative), literal("b", Case::Accusative)],
    );
    assert_eq!(validate_semantics(&good), Ok(()));
    let bad = command(
        "yukle",
        Mood::Imperative,
        vec![literal("a", Case::Accusative), literal("b", Case::Dative), literal("c", Case::Locative)],
    );
    assert_eq!(
        validate_semantics(&bad),
        Err(SemanticError::LoadNeedsAccusative { found: Case::Dative })
    );
    assert_eq!(validate_semantics(&command("yukle", Mood::Optative, vec![])), Ok(()));
}

#[test]
fn go_wants_the_dative() {
    let good = command("git", Mood::Imperative, vec![literal("ev", Case::Dative)]);
    assert_eq!(validate_semantics(&good), Ok(()));
    let bad = command("git", Mood::Imperative, vec![literal("ev", Case::Nominative)]);
    assert_eq!(
        validate_semantics(&bad),
        Err(SemanticError::GoNeedsDative { found: Case::Nominative })
    );
}

#[test]
fn other_expressions_pass() {
    assert_eq!(validate_semantics(&literal("x", Case::Ablative)), Ok(()));
    let other = command("dur", Mood::Imperative, vec![literal("x", Case::Ablative)]);
    assert_eq!(validate_semantics(&other), Ok(()));
    let nested = command(
        "git",
        Mood::Imperative,
        vec![command("yukle", Mood::Imperative, vec![literal("x", Case::Locative)])],
    );
    assert_eq!(validate_semantics(&nested), Ok(()));
}

#[test]
fn semantic_errors_have_words() {
    assert_eq!(
        SemanticError::LoadNeedsAccusative { found: Case::Nominative }.message(),
        "Semantic Error: 'yukle' (Load) expects [Belirtme] (Accusative) object, found Nominative."
    );
    assert_eq!(
        SemanticError::GoNeedsDative { found: Case::Instrumental }.message(),
        "Semantic Error: 'git' (Go) expects [Yonelme] (Dative) target, found Instrumental."
    );
}

#[test]
fn names_are_the_debug_names() {
    for case in [
        Case::Nominative,
        Case::Accusative,
        Case::Dative,
        Case::Locative,
        Case::Ablative,
        Case::Instrumental,
    ] {
        assert_eq!(case.name(), format!("{:?}", case));
    }
    for mood in [Mood::Indicative, Mood::Imperative, Mood::Optative, Mood::Conditional] {
        assert_eq!(mood.name(), format!("{:?}", mood));
    }
}

#[test]
fn literal_is_described() {
    assert_eq!(describe_literal("sayfa", Case::Accusative), "Literal: sayfa [Accusative]");
}
