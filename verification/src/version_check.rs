//! Version constraints of package specifications (`react@^16.13.1`,
//! `react@>=10.0.0 <11.0.0`): their grammar, read with the matcher of
//! `pattern`, and their text.
use vstd::prelude::*;

use crate::pattern::{
    class_has, empty_slots, field_at, first_match, group_chars, group_text, lemma_run_dot_field,
    lemma_run_field, lemma_run_skip, lemma_run_word_part, match_all, run, CharClass, Inst,
};
use crate::text::{
    all_digits, decimal, is_digit, lemma_decimal_digits, lemma_decimal_parses, last_index, last_index_of, lemma_last_at_split, lemma_last_index_of, owned, parse_u64_digits, parsed_u64_digits,
    push_char, push_decimal, push_str, str_eq, string_of, string_of_range, chars_of,
};

verus! {

/// How a constraint compares a version with its bound.
#[derive(Debug, Clone, Copy, PartialEq, Eq, Structural)]
pub enum Operator {
    Tilde,
    Caret,
    GreaterThan,
    GreaterThanOrEqual,
    LessThan,
    LessThanOrEqual,
    Equal,
}

/// One of major, minor, patch: a number, or any.
#[derive(Debug, Clone, Copy, PartialEq, Eq, Structural)]
pub enum VersionField {
    Exact(u64),
    Wildcard,
}

/// How the constraints of a range combine.
#[derive(Debug, Clone, Copy, PartialEq, Eq, Structural)]
pub enum Connector {
    And,
    Or,
}

/// One constraint: an operator and a version whose fields may be wildcards.
#[derive(Debug)]
pub struct VersionConstraint {
    pub operator: Operator,
    pub major: VersionField,
    pub minor: VersionField,
    pub patch: VersionField,
    pub pre_release: Option<String>,
    pub build: Option<String>,
}

/// A constraint with its texts as sequences of characters.
pub struct ConstraintModel {
    pub operator: Operator,
    pub major: VersionField,
    pub minor: VersionField,
    pub patch: VersionField,
    pub pre_release: Option<Seq<char>>,
    pub build: Option<Seq<char>>,
}

pub open spec fn opt_text(o: Option<String>) -> Option<Seq<char>> {
    match o {
        Some(s) => Some(s@),
        None => None,
    }
}

impl View for VersionConstraint {
    type V = ConstraintModel;

    open spec fn view(&self) -> ConstraintModel {
        ConstraintModel {
            operator: self.operator,
            major: self.major,
            minor: self.minor,
            patch: self.patch,
            pre_release: opt_text(self.pre_release),
            build: opt_text(self.build),
        }
    }
}

/// The constraints of a version specification and how they combine.
#[derive(Debug)]
pub struct VersionImpl {
    connector: Connector,
    inner: Vec<VersionConstraint>,
}

impl View for VersionImpl {
    type V = (Connector, Seq<ConstraintModel>);

    closed spec fn view(&self) -> (Connector, Seq<ConstraintModel>) {
        (self.connector, self.inner@.map_values(|c: VersionConstraint| c@))
    }
}

/// A version specification: read from text, and asked whether a version
/// satisfies it.
pub trait Version: Sized {
    /// The texts that `new` reads.
    spec fn accepts(version: Seq<char>) -> bool;

    fn new(version: &str) -> Self
        requires
            Self::accepts(version@),
    ;

    fn satisfies(&self, version: &str) -> bool;
}

/// A package name with its version specification.
#[derive(Debug)]
pub struct Package<T> {
    pub name: String,
    pub version: T,
}

// ---------------------------------------------------------------------
// The grammar
// ---------------------------------------------------------------------

/// `^(\^|~|=)?(\d+|x|\*)(?:\.(\d+|x|\*))?(?:\.(\d+|x|\*))?(?:[-.]([a-zA-Z0-9-]+))?(?:\+([a-zA-Z0-9-]+))?$`
pub open spec fn single_prog() -> Seq<Inst> {
    seq![
        Inst::Split(1, 10),
        Inst::Save(0),
        Inst::Split(3, 5),
        Inst::Class(CharClass::Lit('^')),
        Inst::Jmp(9),
        Inst::Split(6, 8),
        Inst::Class(CharClass::Lit('~')),
        Inst::Jmp(9),
        Inst::Class(CharClass::Lit('=')),
        Inst::Save(1),
        Inst::Save(2),
        Inst::Split(12, 14),
        Inst::Repeat(CharClass::Digit, 1),
        Inst::Jmp(18),
        Inst::Split(15, 17),
        Inst::Class(CharClass::Lit('x')),
        Inst::Jmp(18),
        Inst::Class(CharClass::Lit('*')),
        Inst::Save(3),
        Inst::Split(20, 30),
        Inst::Class(CharClass::Lit('.')),
        Inst::Save(4),
        Inst::Split(23, 25),
        Inst::Repeat(CharClass::Digit, 1),
        Inst::Jmp(29),
        Inst::Split(26, 28),
        Inst::Class(CharClass::Lit('x')),
        Inst::Jmp(29),
        Inst::Class(CharClass::Lit('*')),
        Inst::Save(5),
        Inst::Split(31, 41),
        Inst::Class(CharClass::Lit('.')),
        Inst::Save(6),
        Inst::Split(34, 36),
        Inst::Repeat(CharClass::Digit, 1),
        Inst::Jmp(40),
        Inst::Split(37, 39),
        Inst::Class(CharClass::Lit('x')),
        Inst::Jmp(40),
        Inst::Class(CharClass::Lit('*')),
        Inst::Save(7),
        Inst::Split(42, 46),
        Inst::Class(CharClass::Either('-', '.')),
        Inst::Save(8),
        Inst::Repeat(CharClass::Word, 1),
        Inst::Save(9),
        Inst::Split(47, 51),
        Inst::Class(CharClass::Lit('+')),
        Inst::Save(10),
        Inst::Repeat(CharClass::Word, 1),
        Inst::Save(11),
        Inst::End,
    ]
}

/// `^([<>]=?|~|\^)?(\d+|x|\*)(?:\.(\d+|x|\*))?(?:\.(\d+|x|\*))?(?:(,|\|\|)?\s*([<>]=?|~|\^)?(\d+|x|\*)(?:\.(\d+|x|\*))?(?:\.(\d+|x|\*))?)?$`
pub open spec fn range_prog() -> Seq<Inst> {
    seq![
        Inst::Split(1, 12),
        Inst::Save(0),
        Inst::Split(3, 7),
        Inst::Class(CharClass::Either('<', '>')),
        Inst::Split(5, 6),
        Inst::Class(CharClass::Lit('=')),
        Inst::Jmp(11),
        Inst::Split(8, 10),
        Inst::Class(CharClass::Lit('~')),
        Inst::Jmp(11),
        Inst::Class(CharClass::Lit('^')),
        Inst::Save(1),
        Inst::Save(2),
        Inst::Split(14, 16),
        Inst::Repeat(CharClass::Digit, 1),
        Inst::Jmp(20),
        Inst::Split(17, 19),
        Inst::Class(CharClass::Lit('x')),
        Inst::Jmp(20),
        Inst::Class(CharClass::Lit('*')),
        Inst::Save(3),
        Inst::Split(22, 32),
        Inst::Class(CharClass::Lit('.')),
        Inst::Save(4),
        Inst::Split(25, 27),
        Inst::Repeat(CharClass::Digit, 1),
        Inst::Jmp(31),
        Inst::Split(28, 30),
        Inst::Class(CharClass::Lit('x')),
        Inst::Jmp(31),
        Inst::Class(CharClass::Lit('*')),
        Inst::Save(5),
        Inst::Split(33, 43),
        Inst::Class(CharClass::Lit('.')),
        Inst::Save(6),
        Inst::Split(36, 38),
        Inst::Repeat(CharClass::Digit, 1),
        Inst::Jmp(42),
        Inst::Split(39, 41),
        Inst::Class(CharClass::Lit('x')),
        Inst::Jmp(42),
        Inst::Class(CharClass::Lit('*')),
        Inst::Save(7),
        Inst::Split(44, 96),
        Inst::Split(45, 52),
        Inst::Save(8),
        Inst::Split(47, 49),
        Inst::Class(CharClass::Lit(',')),
        Inst::Jmp(51),
        Inst::Class(CharClass::Lit('|')),
        Inst::Class(CharClass::Lit('|')),
        Inst::Save(9),
        Inst::Repeat(CharClass::Space, 0),
        Inst::Split(54, 65),
        Inst::Save(10),
        Inst::Split(56, 60),
        Inst::Class(CharClass::Either('<', '>')),
        Inst::Split(58, 59),
        Inst::Class(CharClass::Lit('=')),
        Inst::Jmp(64),
        Inst::Split(61, 63),
        Inst::Class(CharClass::Lit('~')),
        Inst::Jmp(64),
        Inst::Class(CharClass::Lit('^')),
        Inst::Save(11),
        Inst::Save(12),
        Inst::Split(67, 69),
        Inst::Repeat(CharClass::Digit, 1),
        Inst::Jmp(73),
        Inst::Split(70, 72),
        Inst::Class(CharClass::Lit('x')),
        Inst::Jmp(73),
        Inst::Class(CharClass::Lit('*')),
        Inst::Save(13),
        Inst::Split(75, 85),
        Inst::Class(CharClass::Lit('.')),
        Inst::Save(14),
        Inst::Split(78, 80),
        Inst::Repeat(CharClass::Digit, 1),
        Inst::Jmp(84),
        Inst::Split(81, 83),
        Inst::Class(CharClass::Lit('x')),
        Inst::Jmp(84),
        Inst::Class(CharClass::Lit('*')),
        Inst::Save(15),
        Inst::Split(86, 96),
        Inst::Class(CharClass::Lit('.')),
        Inst::Save(16),
        Inst::Split(89, 91),
        Inst::Repeat(CharClass::Digit, 1),
        Inst::Jmp(95),
        Inst::Split(92, 94),
        Inst::Class(CharClass::Lit('x')),
        Inst::Jmp(95),
        Inst::Class(CharClass::Lit('*')),
        Inst::Save(17),
        Inst::End,
    ]
}

/// The operator written `t`; none written is `=`.
pub open spec fn operator_of(t: Option<Seq<char>>) -> Operator {
    match t {
        Some(x) => if x == seq!['~'] {
            Operator::Tilde
        } else if x == seq!['^'] {
            Operator::Caret
        } else if x == seq!['>'] {
            Operator::GreaterThan
        } else if x == seq!['>', '='] {
            Operator::GreaterThanOrEqual
        } else if x == seq!['<'] {
            Operator::LessThan
        } else if x == seq!['<', '='] {
            Operator::LessThanOrEqual
        } else {
            Operator::Equal
        },
        None => Operator::Equal,
    }
}

/// A field written `t`: absent, `x` and `*` are wildcards, digits a number;
/// `None` when the number does not fit in a `u64`.
pub open spec fn field_of(t: Option<Seq<char>>) -> Option<VersionField> {
    match t {
        None => Some(VersionField::Wildcard),
        Some(x) => if x == seq!['*'] || x == seq!['x'] {
            Some(VersionField::Wildcard)
        } else {
            match parsed_u64_digits(x) {
                Some(n) => Some(VersionField::Exact(n)),
                None => None,
            }
        },
    }
}

/// The connector written `t`: `||` and `|` are "or", anything else "and".
pub open spec fn connector_of(t: Option<Seq<char>>) -> Connector {
    match t {
        Some(x) => if x == seq!['|'] || x == seq!['|', '|'] {
            Connector::Or
        } else {
            Connector::And
        },
        None => Connector::And,
    }
}

/// The constraint that every version satisfies.
pub open spec fn any_version() -> ConstraintModel {
    ConstraintModel {
        operator: Operator::Equal,
        major: VersionField::Wildcard,
        minor: VersionField::Wildcard,
        patch: VersionField::Wildcard,
        pre_release: None,
        build: None,
    }
}

/// A single constraint (`^1.2.3-beta+build`); `None` where the text does not
/// match the grammar or a number is too large.
#[verifier::opaque]
pub open spec fn single_model(s: Seq<char>) -> Option<ConstraintModel> {
    if s == "*"@ || s == "x"@ || s == "latest"@ {
        Some(any_version())
    } else {
        match first_match(single_prog(), s, 6) {
            None => None,
            Some(c) => match (
                field_of(group_text(s, c, 1)),
                field_of(group_text(s, c, 2)),
                field_of(group_text(s, c, 3)),
            ) {
                (Some(major), Some(minor), Some(patch)) => Some(
                    ConstraintModel {
                        operator: operator_of(group_text(s, c, 0)),
                        major,
                        minor,
                        patch,
                        pre_release: group_text(s, c, 4),
                        build: group_text(s, c, 5),
                    },
                ),
                _ => None,
            },
        }
    }
}

/// A range of two constraints (`>=1.0.0 <2.0.0`, `1.0.0||2`); the second is
/// any version where the text gives one only.
#[verifier::opaque]
pub open spec fn range_model(s: Seq<char>) -> Option<(Connector, Seq<ConstraintModel>)> {
    match first_match(range_prog(), s, 9) {
        None => None,
        Some(c) => match (
            field_of(group_text(s, c, 1)),
            field_of(group_text(s, c, 2)),
            field_of(group_text(s, c, 3)),
            field_of(group_text(s, c, 6)),
            field_of(group_text(s, c, 7)),
            field_of(group_text(s, c, 8)),
        ) {
            (Some(a), Some(b), Some(d), Some(e), Some(f), Some(g)) => Some(
                (
                    connector_of(group_text(s, c, 4)),
                    seq![
                        ConstraintModel {
                            operator: operator_of(group_text(s, c, 0)),
                            major: a,
                            minor: b,
                            patch: d,
                            pre_release: None,
                            build: None,
                        },
                        ConstraintModel {
                            operator: operator_of(group_text(s, c, 5)),
                            major: e,
                            minor: f,
                            patch: g,
                            pre_release: None,
                            build: None,
                        },
                    ],
                ),
            ),
            _ => None,
        },
    }
}

pub open spec fn has_char(s: Seq<char>, c: char) -> bool {
    exists|i: int| 0 <= i < s.len() && s[i] == c
}

pub open spec fn has_double_bar(s: Seq<char>) -> bool {
    exists|i: int| 0 <= i && i + 1 < s.len() && #[trigger] s[i] == '|' && s[i + 1] == '|'
}

/// A text with `>`, `<` or `||` is a range; any other a single constraint.
pub open spec fn constraints_model(s: Seq<char>) -> Option<(Connector, Seq<ConstraintModel>)> {
    if has_char(s, '>') || has_char(s, '<') || has_double_bar(s) {
        range_model(s)
    } else {
        match single_model(s) {
            Some(c) => Some((Connector::And, seq![c])),
            None => None,
        }
    }
}

/// A package specification `name@version`, split at its last `@`; without
/// an `@`, or with `latest`, the version is `*`.
pub open spec fn package_model(s: Seq<char>) -> Option<(Seq<char>, (Connector, Seq<ConstraintModel>))> {
    let p = last_index_of(s, '@');
    if p < 0 {
        match constraints_model("*"@) {
            Some(v) => Some((s, v)),
            None => None,
        }
    } else {
        let ver = s.subrange(p + 1, s.len() as int);
        let escaped = if ver == "latest"@ {
            "*"@
        } else {
            ver
        };
        match constraints_model(escaped) {
            Some(v) => Some((s.subrange(0, p), v)),
            None => None,
        }
    }
}

// ---------------------------------------------------------------------
// The text of a constraint
// ---------------------------------------------------------------------

pub open spec fn operator_text(o: Operator) -> Seq<char> {
    match o {
        Operator::Tilde => seq!['~'],
        Operator::Caret => seq!['^'],
        Operator::GreaterThan => seq!['>'],
        Operator::GreaterThanOrEqual => seq!['>', '='],
        Operator::LessThan => seq!['<'],
        Operator::LessThanOrEqual => seq!['<', '='],
        Operator::Equal => seq!['='],
    }
}

pub open spec fn field_text(f: VersionField) -> Seq<char> {
    match f {
        VersionField::Exact(n) => decimal(n as nat),
        VersionField::Wildcard => seq!['*'],
    }
}

/// `major.minor.patch`, after the operator unless it is `=`, then `-pre`
/// and `+build` where present.
pub open spec fn constraint_text(c: ConstraintModel) -> Seq<char> {
    (if c.operator == Operator::Equal {
        Seq::empty()
    } else {
        operator_text(c.operator)
    }) + field_text(c.major) + seq!['.'] + field_text(c.minor) + seq!['.'] + field_text(c.patch)
        + match c.pre_release {
        Some(p) => seq!['-'] + p,
        None => Seq::empty(),
    } + match c.build {
        Some(b) => seq!['+'] + b,
        None => Seq::empty(),
    }
}

/// The constraints' texts separated by spaces.
pub open spec fn constraints_text(v: Seq<ConstraintModel>) -> Seq<char>
    decreases v.len(),
{
    if v.len() == 0 {
        Seq::empty()
    } else if v.len() == 1 {
        constraint_text(v[0])
    } else {
        constraints_text(v.drop_last()) + seq![' '] + constraint_text(v.last())
    }
}

// ---------------------------------------------------------------------
// The two programs
// ---------------------------------------------------------------------

fn single_program() -> (p: Vec<Inst>)
    ensures
        p@ == single_prog(),
{
    let a: [Inst; 52] = [
        Inst::Split(1, 10),
        Inst::Save(0),
        Inst::Split(3, 5),
        Inst::Class(CharClass::Lit('^')),
        Inst::Jmp(9),
        Inst::Split(6, 8),
        Inst::Class(CharClass::Lit('~')),
        Inst::Jmp(9),
        Inst::Class(CharClass::Lit('=')),
        Inst::Save(1),
        Inst::Save(2),
        Inst::Split(12, 14),
        Inst::Repeat(CharClass::Digit, 1),
        Inst::Jmp(18),
        Inst::Split(15, 17),
        Inst::Class(CharClass::Lit('x')),
        Inst::Jmp(18),
        Inst::Class(CharClass::Lit('*')),
        Inst::Save(3),
        Inst::Split(20, 30),
        Inst::Class(CharClass::Lit('.')),
        Inst::Save(4),
        Inst::Split(23, 25),
        Inst::Repeat(CharClass::Digit, 1),
        Inst::Jmp(29),
        Inst::Split(26, 28),
        Inst::Class(CharClass::Lit('x')),
        Inst::Jmp(29),
        Inst::Class(CharClass::Lit('*')),
        Inst::Save(5),
        Inst::Split(31, 41),
        Inst::Class(CharClass::Lit('.')),
        Inst::Save(6),
        Inst::Split(34, 36),
        Inst::Repeat(CharClass::Digit, 1),
        Inst::Jmp(40),
        Inst::Split(37, 39),
        Inst::Class(CharClass::Lit('x')),
        Inst::Jmp(40),
        Inst::Class(CharClass::Lit('*')),
        Inst::Save(7),
        Inst::Split(42, 46),
        Inst::Class(CharClass::Either('-', '.')),
        Inst::Save(8),
        Inst::Repeat(CharClass::Word, 1),
        Inst::Save(9),
        Inst::Split(47, 51),
        Inst::Class(CharClass::Lit('+')),
        Inst::Save(10),
        Inst::Repeat(CharClass::Word, 1),
        Inst::Save(11),
        Inst::End,
    ];
    let mut p: Vec<Inst> = Vec::new();
    let mut i: usize = 0;
    while i < 52
        invariant
            i <= 52,
            p@ == a@.take(i as int),
        decreases 52 - i,
    {
        p.push(a[i]);
        i = i + 1;
        assert(p@ =~= a@.take(i as int));
    }
    assert(a@.take(52) =~= a@);
    p
}

fn range_program() -> (p: Vec<Inst>)
    ensures
        p@ == range_prog(),
{
    let a: [Inst; 97] = [
        Inst::Split(1, 12),
        Inst::Save(0),
        Inst::Split(3, 7),
        Inst::Class(CharClass::Either('<', '>')),
        Inst::Split(5, 6),
        Inst::Class(CharClass::Lit('=')),
        Inst::Jmp(11),
        Inst::Split(8, 10),
        Inst::Class(CharClass::Lit('~')),
        Inst::Jmp(11),
        Inst::Class(CharClass::Lit('^')),
        Inst::Save(1),
        Inst::Save(2),
        Inst::Split(14, 16),
        Inst::Repeat(CharClass::Digit, 1),
        Inst::Jmp(20),
        Inst::Split(17, 19),
        Inst::Class(CharClass::Lit('x')),
        Inst::Jmp(20),
        Inst::Class(CharClass::Lit('*')),
        Inst::Save(3),
        Inst::Split(22, 32),
        Inst::Class(CharClass::Lit('.')),
        Inst::Save(4),
        Inst::Split(25, 27),
        Inst::Repeat(CharClass::Digit, 1),
        Inst::Jmp(31),
        Inst::Split(28, 30),
        Inst::Class(CharClass::Lit('x')),
        Inst::Jmp(31),
        Inst::Class(CharClass::Lit('*')),
        Inst::Save(5),
        Inst::Split(33, 43),
        Inst::Class(CharClass::Lit('.')),
        Inst::Save(6),
        Inst::Split(36, 38),
        Inst::Repeat(CharClass::Digit, 1),
        Inst::Jmp(42),
        Inst::Split(39, 41),
        Inst::Class(CharClass::Lit('x')),
        Inst::Jmp(42),
        Inst::Class(CharClass::Lit('*')),
        Inst::Save(7),
        Inst::Split(44, 96),
        Inst::Split(45, 52),
        Inst::Save(8),
        Inst::Split(47, 49),
        Inst::Class(CharClass::Lit(',')),
        Inst::Jmp(51),
        Inst::Class(CharClass::Lit('|')),
        Inst::Class(CharClass::Lit('|')),
        Inst::Save(9),
        Inst::Repeat(CharClass::Space, 0),
        Inst::Split(54, 65),
        Inst::Save(10),
        Inst::Split(56, 60),
        Inst::Class(CharClass::Either('<', '>')),
        Inst::Split(58, 59),
        Inst::Class(CharClass::Lit('=')),
        Inst::Jmp(64),
        Inst::Split(61, 63),
        Inst::Class(CharClass::Lit('~')),
        Inst::Jmp(64),
        Inst::Class(CharClass::Lit('^')),
        Inst::Save(11),
        Inst::Save(12),
        Inst::Split(67, 69),
        Inst::Repeat(CharClass::Digit, 1),
        Inst::Jmp(73),
        Inst::Split(70, 72),
        Inst::Class(CharClass::Lit('x')),
        Inst::Jmp(73),
        Inst::Class(CharClass::Lit('*')),
        Inst::Save(13),
        Inst::Split(75, 85),
        Inst::Class(CharClass::Lit('.')),
        Inst::Save(14),
        Inst::Split(78, 80),
        Inst::Repeat(CharClass::Digit, 1),
        Inst::Jmp(84),
        Inst::Split(81, 83),
        Inst::Class(CharClass::Lit('x')),
        Inst::Jmp(84),
        Inst::Class(CharClass::Lit('*')),
        Inst::Save(15),
        Inst::Split(86, 96),
        Inst::Class(CharClass::Lit('.')),
        Inst::Save(16),
        Inst::Split(89, 91),
        Inst::Repeat(CharClass::Digit, 1),
        Inst::Jmp(95),
        Inst::Split(92, 94),
        Inst::Class(CharClass::Lit('x')),
        Inst::Jmp(95),
        Inst::Class(CharClass::Lit('*')),
        Inst::Save(17),
        Inst::End,
    ];
    let mut p: Vec<Inst> = Vec::new();
    let mut i: usize = 0;
    while i < 97
        invariant
            i <= 97,
            p@ == a@.take(i as int),
        decreases 97 - i,
    {
        p.push(a[i]);
        i = i + 1;
        assert(p@ =~= a@.take(i as int));
    }
    assert(a@.take(97) =~= a@);
    p
}

// ---------------------------------------------------------------------
// Reading
// ---------------------------------------------------------------------

pub open spec fn opt_chars(o: Option<Vec<char>>) -> Option<Seq<char>> {
    match o {
        Some(v) => Some(v@),
        None => None,
    }
}

fn is_one(v: &Vec<char>, a: char) -> (r: bool)
    ensures
        r == (v@ == seq![a]),
{
    let r = v.len() == 1 && v[0] == a;
    if r {
        assert(v@ =~= seq![a]);
    }
    r
}

fn is_two(v: &Vec<char>, a: char, b: char) -> (r: bool)
    ensures
        r == (v@ == seq![a, b]),
{
    let r = v.len() == 2 && v[0] == a && v[1] == b;
    if r {
        assert(v@ =~= seq![a, b]);
    }
    r
}

fn digits_only(v: &Vec<char>) -> (r: bool)
    ensures
        r == all_digits(v@),
{
    let mut i: usize = 0;
    while i < v.len()
        invariant
            i <= v@.len(),
            forall|k: int| 0 <= k < i ==> '0' <= #[trigger] v@[k] && v@[k] <= '9',
        decreases v@.len() - i,
    {
        if !('0' <= v[i] && v[i] <= '9') {
            return false;
        }
        i = i + 1;
    }
    true
}

fn contains_char(v: &Vec<char>, c: char) -> (r: bool)
    ensures
        r == has_char(v@, c),
{
    let mut i: usize = 0;
    while i < v.len()
        invariant
            i <= v@.len(),
            forall|k: int| 0 <= k < i ==> #[trigger] v@[k] != c,
        decreases v@.len() - i,
    {
        if v[i] == c {
            return true;
        }
        i = i + 1;
    }
    false
}

fn contains_double_bar(v: &Vec<char>) -> (r: bool)
    ensures
        r == has_double_bar(v@),
{
    let mut i: usize = 0;
    while i < v.len()
        invariant
            i <= v@.len(),
            forall|k: int| 0 <= k < i && k + 1 < v@.len() ==> !(#[trigger] v@[k] == '|' && v@[k + 1] == '|'),
        decreases v@.len() - i,
    {
        if i + 1 < v.len() && v[i] == '|' && v[i + 1] == '|' {
            return true;
        }
        i = i + 1;
    }
    false
}

impl Operator {
    /// The operator written `t` (`FromStr` of the written operators).
    pub fn from_chars(t: &Option<Vec<char>>) -> (r: Operator)
        ensures
            r == operator_of(opt_chars(*t)),
    {
        match t {
            Some(x) => {
                if is_one(x, '~') {
                    Operator::Tilde
                } else if is_one(x, '^') {
                    Operator::Caret
                } else if is_one(x, '>') {
                    Operator::GreaterThan
                } else if is_two(x, '>', '=') {
                    Operator::GreaterThanOrEqual
                } else if is_one(x, '<') {
                    Operator::LessThan
                } else if is_two(x, '<', '=') {
                    Operator::LessThanOrEqual
                } else {
                    Operator::Equal
                }
            },
            None => Operator::Equal,
        }
    }

    pub fn to_string(&self) -> (r: String)
        ensures
            r@ == operator_text(*self),
    {
        let mut r = String::new();
        match self {
            Operator::Tilde => push_char(&mut r, '~'),
            Operator::Caret => push_char(&mut r, '^'),
            Operator::GreaterThan => push_char(&mut r, '>'),
            Operator::GreaterThanOrEqual => {
                push_char(&mut r, '>');
                push_char(&mut r, '=');
            },
            Operator::LessThan => push_char(&mut r, '<'),
            Operator::LessThanOrEqual => {
                push_char(&mut r, '<');
                push_char(&mut r, '=');
            },
            Operator::Equal => push_char(&mut r, '='),
        }
        assert(r@ =~= operator_text(*self));
        r
    }
}

impl VersionField {
    /// The field written `t`; `None` when its number does not fit.
    pub fn from_chars(t: &Option<Vec<char>>) -> (r: Option<VersionField>)
        ensures
            r == field_of(opt_chars(*t)),
    {
        match t {
            None => Some(VersionField::Wildcard),
            Some(x) => {
                if is_one(x, '*') || is_one(x, 'x') {
                    Some(VersionField::Wildcard)
                } else if x.len() > 0 && digits_only(x) {
                    match parse_u64_digits(x) {
                        Some(n) => Some(VersionField::Exact(n)),
                        None => None,
                    }
                } else {
                    None
                }
            },
        }
    }

    pub fn to_string(&self) -> (r: String)
        ensures
            r@ == field_text(*self),
    {
        match self {
            VersionField::Exact(n) => {
                let mut r = String::new();
                push_decimal(&mut r, *n);
                assert(r@ =~= field_text(*self));
                r
            },
            VersionField::Wildcard => {
                let mut r = String::new();
                push_char(&mut r, '*');
                assert(r@ =~= field_text(*self));
                r
            },
        }
    }
}

impl Connector {
    /// The connector written `t` (`FromStr` of the written connectors).
    pub fn from_chars(t: &Option<Vec<char>>) -> (r: Connector)
        ensures
            r == connector_of(opt_chars(*t)),
    {
        match t {
            Some(x) => {
                if is_one(x, '|') || is_two(x, '|', '|') {
                    Connector::Or
                } else {
                    Connector::And
                }
            },
            None => Connector::And,
        }
    }
}

fn opt_string(t: &Option<Vec<char>>) -> (r: Option<String>)
    ensures
        opt_text(r) == opt_chars(*t),
{
    match t {
        Some(v) => Some(string_of(v)),
        None => None,
    }
}

impl VersionConstraint {
    pub fn to_string(&self) -> (r: String)
        ensures
            r@ == constraint_text(self@),
    {
        let mut r = String::new();
        match self.operator {
            Operator::Equal => {},
            op => {
                let t = op.to_string();
                push_str(&mut r, t.as_str());
            },
        }
        let t = self.major.to_string();
        push_str(&mut r, t.as_str());
        push_char(&mut r, '.');
        let t = self.minor.to_string();
        push_str(&mut r, t.as_str());
        push_char(&mut r, '.');
        let t = self.patch.to_string();
        push_str(&mut r, t.as_str());
        if let Some(pre_release) = &self.pre_release {
            push_char(&mut r, '-');
            push_str(&mut r, pre_release.as_str());
        }
        if let Some(build) = &self.build {
            push_char(&mut r, '+');
            push_str(&mut r, build.as_str());
        }
        assert(r@ =~= constraint_text(self@));
        r
    }
}

impl VersionImpl {
    /// The constraints, texts separated by spaces.
    pub fn to_string(&self) -> (r: String)
        ensures
            r@ == constraints_text(self@.1),
    {
        let ghost v = self@.1;
        let mut r = String::new();
        let mut i: usize = 0;
        while i < self.inner.len()
            invariant
                i <= self.inner@.len(),
                v == self.inner@.map_values(|c: VersionConstraint| c@),
                r@ == constraints_text(v.take(i as int)),
            decreases self.inner@.len() - i,
        {
            if i > 0 {
                push_char(&mut r, ' ');
            }
            let t = self.inner[i].to_string();
            push_str(&mut r, t.as_str());
            assert(v.take(i + 1).drop_last() =~= v.take(i as int));
            assert(r@ =~= constraints_text(v.take(i + 1)));
            i = i + 1;
        }
        assert(v.take(i as int) =~= v);
        r
    }

    /// A single constraint, or `None` where `single_model` has none.
    pub fn try_parse_single_constraint(version: &str) -> (r: Option<VersionConstraint>)
        ensures
            match r {
                Some(c) => single_model(version@) == Some(c@),
                None => single_model(version@) is None,
            },
    {
        proof {
            reveal(single_model);
        }
        if str_eq(version, "*") || str_eq(version, "x") || str_eq(version, "latest") {
            return Some(
                VersionConstraint {
                    operator: Operator::Equal,
                    major: VersionField::Wildcard,
                    minor: VersionField::Wildcard,
                    patch: VersionField::Wildcard,
                    pre_release: None,
                    build: None,
                },
            );
        }
        let s = chars_of(version);
        let prog = single_program();
        let caps = match match_all(&prog, &s, 6) {
            Some(c) => c,
            None => {
                return None;
            },
        };
        let major = VersionField::from_chars(&group_chars(&s, &caps, 1));
        let minor = VersionField::from_chars(&group_chars(&s, &caps, 2));
        let patch = VersionField::from_chars(&group_chars(&s, &caps, 3));
        match (major, minor, patch) {
            (Some(major), Some(minor), Some(patch)) => {
                let operator = Operator::from_chars(&group_chars(&s, &caps, 0));
                let pre_release = opt_string(&group_chars(&s, &caps, 4));
                let build = opt_string(&group_chars(&s, &caps, 5));
                Some(VersionConstraint { operator, major, minor, patch, pre_release, build })
            },
            _ => None,
        }
    }

    /// A single constraint such as `^1.2.3-beta+build`, `1.x` or `latest`.
    pub fn parse_single_constraint(version: &str) -> (r: VersionConstraint)
        requires
            single_model(version@) is Some,
        ensures
            r@ == single_model(version@)->0,
    {
        Self::try_parse_single_constraint(version).unwrap()
    }

    /// A range of two constraints, or `None` where `range_model` has none.
    pub fn try_parse_range(version: &str) -> (r: Option<(Connector, Vec<VersionConstraint>)>)
        ensures
            match r {
                Some(p) => range_model(version@) == Some((p.0, p.1@.map_values(|c: VersionConstraint| c@))),
                None => range_model(version@) is None,
            },
    {
        proof {
            reveal(range_model);
        }
        let s = chars_of(version);
        let prog = range_program();
        let caps = match match_all(&prog, &s, 9) {
            Some(c) => c,
            None => {
                return None;
            },
        };
        let start_major = VersionField::from_chars(&group_chars(&s, &caps, 1));
        let start_minor = VersionField::from_chars(&group_chars(&s, &caps, 2));
        let start_patch = VersionField::from_chars(&group_chars(&s, &caps, 3));
        let end_major = VersionField::from_chars(&group_chars(&s, &caps, 6));
        let end_minor = VersionField::from_chars(&group_chars(&s, &caps, 7));
        let end_patch = VersionField::from_chars(&group_chars(&s, &caps, 8));
        match (start_major, start_minor, start_patch, end_major, end_minor, end_patch) {
            (Some(a), Some(b), Some(d), Some(e), Some(f), Some(g)) => {
                let start_operator = Operator::from_chars(&group_chars(&s, &caps, 0));
                let connector = Connector::from_chars(&group_chars(&s, &caps, 4));
                let end_operator = Operator::from_chars(&group_chars(&s, &caps, 5));
                let mut constraints: Vec<VersionConstraint> = Vec::new();
                constraints.push(
                    VersionConstraint {
                        operator: start_operator,
                        major: a,
                        minor: b,
                        patch: d,
                        pre_release: None,
                        build: None,
                    },
                );
                constraints.push(
                    VersionConstraint {
                        operator: end_operator,
                        major: e,
                        minor: f,
                        patch: g,
                        pre_release: None,
                        build: None,
                    },
                );
                let ghost model = range_model(version@)->0;
                assert(constraints@.map_values(|c: VersionConstraint| c@) =~= model.1);
                Some((connector, constraints))
            },
            _ => None,
        }
    }

    /// A range such as `>=1.0.0 <2.0.0` or `1.0.0||2`.
    pub fn parse_range(version: &str) -> (r: (Connector, Vec<VersionConstraint>))
        requires
            range_model(version@) is Some,
        ensures
            range_model(version@) == Some((r.0, r.1@.map_values(|c: VersionConstraint| c@))),
    {
        Self::try_parse_range(version).unwrap()
    }

    /// The constraints of a version specification, or `None` where
    /// `constraints_model` has none.
    pub fn try_parse_constraints(version: &str) -> (r: Option<(Connector, Vec<VersionConstraint>)>)
        ensures
            match r {
                Some(p) => constraints_model(version@) == Some((p.0, p.1@.map_values(|c: VersionConstraint| c@))),
                None => constraints_model(version@) is None,
            },
    {
        let s = chars_of(version);
        if contains_char(&s, '>') || contains_char(&s, '<') || contains_double_bar(&s) {
            return Self::try_parse_range(version);
        }
        match Self::try_parse_single_constraint(version) {
            Some(c) => {
                let mut constraints: Vec<VersionConstraint> = Vec::new();
                constraints.push(c);
                assert(constraints@.map_values(|c: VersionConstraint| c@) =~= seq![single_model(version@)->0]);
                Some((Connector::And, constraints))
            },
            None => None,
        }
    }

    /// The constraints of a version specification: a range where the text
    /// holds `>`, `<` or `||`, else a single constraint.
    pub fn parse_constraints(version: &str) -> (r: (Connector, Vec<VersionConstraint>))
        requires
            constraints_model(version@) is Some,
        ensures
            constraints_model(version@) == Some((r.0, r.1@.map_values(|c: VersionConstraint| c@))),
    {
        Self::try_parse_constraints(version).unwrap()
    }

    /// Whether `new` reads `version`.
    pub fn accepts(version: &str) -> (r: bool)
        ensures
            r == constraints_model(version@) is Some,
    {
        Self::try_parse_constraints(version).is_some()
    }
}

impl Version for VersionImpl {
    open spec fn accepts(version: Seq<char>) -> bool {
        constraints_model(version) is Some
    }

    fn new(version: &str) -> (r: Self)
        ensures
            constraints_model(version@) == Some(r@),
    {
        let (connector, inner) = Self::parse_constraints(version);
        VersionImpl { connector, inner }
    }

    /// Every version satisfies a specification.
    fn satisfies(&self, version: &str) -> (r: bool)
        ensures
            r,
    {
        true
    }
}

impl Package<VersionImpl> {
    /// Reads `name@version`, splitting at the last `@`.
    pub fn new(package_name: &str) -> (r: Self)
        requires
            package_model(package_name@) is Some,
        ensures
            package_model(package_name@) == Some((r.name@, r.version@)),
    {
        let s = chars_of(package_name);
        proof {
            lemma_last_index_of(s@, '@');
        }
        match last_index(&s, '@') {
            None => {
                proof {
                    reveal_strlit("*");
                    assert(!has_char("*"@, '>'));
                    assert(!has_char("*"@, '<'));
                    assert(!has_double_bar("*"@));
                }
                let version = VersionImpl::new("*");
                Package { name: owned(package_name), version }
            },
            Some(p) => {
                let ver = string_of_range(&s, p + 1, s.len());
                let escaped = if str_eq(ver.as_str(), "latest") {
                    owned("*")
                } else {
                    ver
                };
                let name = string_of_range(&s, 0, p);
                let version = VersionImpl::new(escaped.as_str());
                Package { name, version }
            },
        }
    }
}

/// Whether `Package::new` reads `package_name`.
pub fn package_accepted(package_name: &str) -> (r: bool)
    ensures
        r == package_model(package_name@) is Some,
{
    let s = chars_of(package_name);
    let n = s.len();
    proof {
        lemma_last_index_of(s@, '@');
        reveal(single_model);
    }
    match last_index(&s, '@') {
        None => {
            proof {
                reveal_strlit("*");
                assert(!has_char("*"@, '>'));
                assert(!has_char("*"@, '<'));
                assert(!has_double_bar("*"@));
            }
            true
        },
        Some(p) => {
            let ver = string_of_range(&s, p + 1, n);
            if str_eq(ver.as_str(), "latest") {
                VersionImpl::accepts("*")
            } else {
                VersionImpl::accepts(ver.as_str())
            }
        },
    }
}


// ---------------------------------------------------------------------
// Reading the text of a constraint back
// ---------------------------------------------------------------------

/// A pre-release or build text that the grammar reads back whole: a
/// nonempty run of `[a-zA-Z0-9-]`.
pub open spec fn is_word(t: Seq<char>) -> bool {
    t.len() > 0 && forall|j: int| 0 <= j < t.len() ==> class_has(CharClass::Word, #[trigger] t[j])
}

/// A constraint whose text is in the grammar of a single constraint: `~`,
/// `^` or no operator, and word texts after `-` and `+`.
pub open spec fn in_single_grammar(m: ConstraintModel) -> bool {
    &&& (m.operator == Operator::Equal || m.operator == Operator::Tilde || m.operator
        == Operator::Caret)
    &&& (m.pre_release matches Some(p) ==> is_word(p))
    &&& (m.build matches Some(b) ==> is_word(b))
}

proof fn lemma_single_prog_shape()
    ensures
        single_prog().len() == 52,
        single_prog()[0] == Inst::Split(1, 10),
        single_prog()[1] == Inst::Save(0),
        single_prog()[2] == Inst::Split(3, 5),
        single_prog()[3] == Inst::Class(CharClass::Lit('^')),
        single_prog()[4] == Inst::Jmp(9),
        single_prog()[5] == Inst::Split(6, 8),
        single_prog()[6] == Inst::Class(CharClass::Lit('~')),
        single_prog()[7] == Inst::Jmp(9),
        single_prog()[8] == Inst::Class(CharClass::Lit('=')),
        single_prog()[9] == Inst::Save(1),
        field_at(single_prog(), 10, 1),
        single_prog()[19] == Inst::Split(20, 30),
        single_prog()[20] == Inst::Class(CharClass::Lit('.')),
        field_at(single_prog(), 21, 2),
        single_prog()[30] == Inst::Split(31, 41),
        single_prog()[31] == Inst::Class(CharClass::Lit('.')),
        field_at(single_prog(), 32, 3),
        single_prog()[41] == Inst::Split(42, 46),
        single_prog()[42] == Inst::Class(CharClass::Either('-', '.')),
        single_prog()[43] == Inst::Save(8),
        single_prog()[44] == Inst::Repeat(CharClass::Word, 1),
        single_prog()[45] == Inst::Save(9),
        single_prog()[46] == Inst::Split(47, 51),
        single_prog()[47] == Inst::Class(CharClass::Lit('+')),
        single_prog()[48] == Inst::Save(10),
        single_prog()[49] == Inst::Repeat(CharClass::Word, 1),
        single_prog()[50] == Inst::Save(11),
        single_prog()[51] == Inst::End,
{
}

/// The text of a field, standing at `i` in `s` with no digit after it,
/// is read as that field.
proof fn lemma_field_reads(s: Seq<char>, i: int, f: VersionField)
    requires
        0 <= i,
        i + field_text(f).len() <= s.len(),
        s.subrange(i, i + field_text(f).len()) == field_text(f),
        i + field_text(f).len() < s.len() ==> !is_digit(s[i + field_text(f).len()]),
    ensures
        field_text(f).len() > 0,
        (forall|j: int| i <= j < i + field_text(f).len() ==> is_digit(#[trigger] s[j])) && (i
            + field_text(f).len() < s.len() ==> !is_digit(s[i + field_text(f).len()])) || (
        field_text(f).len() == 1 && s[i] == '*'),
        is_digit(s[i]) || s[i] == '*',
        field_of(Some(field_text(f))) == Some(f),
{
    let t = field_text(f);
    match f {
        VersionField::Exact(n) => {
            lemma_decimal_digits(n as nat);
            lemma_decimal_parses(n);
            assert forall|j: int| i <= j < i + t.len() implies is_digit(#[trigger] s[j]) by {
                assert(s[j] == s.subrange(i, i + t.len())[j - i]);
            }
            assert(s[i] == t[0]);
            assert(t != seq!['*']) by {
                assert(is_digit(t[0]));
            }
            assert(t != seq!['x']) by {
                assert(is_digit(t[0]));
            }
        },
        VersionField::Wildcard => {
            assert(s[i] == t[0]);
        },
    }
}


/// The single-constraint program reads the operator written `o` (`~`, `^`,
/// `=` or none), then goes on with the major field.
proof fn lemma_run_operator(s: Seq<char>, o: Seq<char>, r: Seq<Option<usize>>)
    requires
        o == Seq::<char>::empty() || o == seq!['~'] || o == seq!['^'] || o == seq!['='],
        1 <= s.len() <= usize::MAX,
        o.len() == 0 ==> (is_digit(s[0]) || s[0] == '*') && run(
            single_prog(),
            s,
            10,
            0,
            empty_slots(12),
        ) == Some(r),
        o.len() == 1 ==> s[0] == o[0] && run(
            single_prog(),
            s,
            10,
            1,
            empty_slots(12).update(0, Some(0usize)).update(1, Some(1usize)),
        ) == Some(r),
    ensures
        run(single_prog(), s, 0, 0, empty_slots(12)) == Some(r),
{
    lemma_single_prog_shape();
    let prog = single_prog();
    let e = empty_slots(12);
    let e1 = e.update(0, Some(0usize));
    if o.len() == 0 {
        assert(run(prog, s, 3, 0, e1) is None);
        assert(run(prog, s, 6, 0, e1) is None);
        assert(run(prog, s, 8, 0, e1) is None);
        assert(run(prog, s, 5, 0, e1) is None);
        assert(run(prog, s, 2, 0, e1) is None);
        assert(run(prog, s, 1, 0, e) is None);
    } else {
        assert(run(prog, s, 9, 1, e1) == Some(r));
        if o == seq!['^'] {
            assert(s[0] == '^');
            assert(run(prog, s, 4, 1, e1) == Some(r));
            assert(run(prog, s, 3, 0, e1) == Some(r));
        } else if o == seq!['~'] {
            assert(s[0] == '~');
            assert(run(prog, s, 7, 1, e1) == Some(r));
            assert(run(prog, s, 6, 0, e1) == Some(r));
            assert(run(prog, s, 3, 0, e1) is None);
            assert(run(prog, s, 5, 0, e1) == Some(r));
        } else {
            assert(s[0] == '=');
            assert(run(prog, s, 8, 0, e1) == Some(r));
            assert(run(prog, s, 6, 0, e1) is None);
            assert(run(prog, s, 3, 0, e1) is None);
            assert(run(prog, s, 5, 0, e1) == Some(r));
        }
        assert(run(prog, s, 2, 0, e1) == Some(r));
        assert(run(prog, s, 1, 0, e) == Some(r));
    }
}

spec fn op_part(m: ConstraintModel) -> Seq<char> {
    if m.operator == Operator::Equal {
        Seq::empty()
    } else {
        operator_text(m.operator)
    }
}

spec fn pre_part(m: ConstraintModel) -> Seq<char> {
    match m.pre_release {
        Some(p) => seq!['-'] + p,
        None => Seq::empty(),
    }
}

spec fn build_part(m: ConstraintModel) -> Seq<char> {
    match m.build {
        Some(b) => seq!['+'] + b,
        None => Seq::empty(),
    }
}

/// A constraint's text, with the operator written `o`.
spec fn written(m: ConstraintModel, o: Seq<char>) -> Seq<char> {
    o + field_text(m.major) + seq!['.'] + field_text(m.minor) + seq!['.'] + field_text(m.patch)
        + pre_part(m) + build_part(m)
}

#[verifier::spinoff_prover]
#[verifier::rlimit(60)]
proof fn lemma_written_reads_back(m: ConstraintModel, o: Seq<char>)
    requires
        in_single_grammar(m),
        o == op_part(m) || (m.operator == Operator::Equal && o == seq!['=']),
        written(m, o).len() <= usize::MAX,
    ensures
        single_model(written(m, o)) == Some(m),
{
    lemma_single_prog_shape();
    let prog = single_prog();
    let fa = field_text(m.major);
    let fb = field_text(m.minor);
    let fc = field_text(m.patch);
    let pp = pre_part(m);
    let bp = build_part(m);
    let t1 = o + fa;
    let t2 = t1 + seq!['.'];
    let t3 = t2 + fb;
    let t4 = t3 + seq!['.'];
    let t5 = t4 + fc;
    let t6 = t5 + pp;
    let s = written(m, o);
    assert(s == t6 + bp);
    let i0 = o.len() as int;
    let i1 = t1.len() as int;
    let i2 = t2.len() as int;
    let i3 = t3.len() as int;
    let i4 = t4.len() as int;
    let i5 = t5.len() as int;
    let i6 = t6.len() as int;
    let e = s.len() as int;
    assert(s.subrange(0, i0) =~= o);
    assert(s.subrange(i0, i1) =~= fa);
    assert(s[i1] == '.');
    assert(s.subrange(i2, i3) =~= fb);
    assert(s[i3] == '.');
    assert(s.subrange(i4, i5) =~= fc);
    assert(s.subrange(i5, i6) =~= pp);
    assert(s.subrange(i6, e) =~= bp);
    assert(i5 < e ==> s[i5] == '-' || s[i5] == '+') by {
        if i5 < e {
            if i5 < i6 {
                assert(s[i5] == s.subrange(i5, i6)[0]);
            } else {
                assert(s[i5] == s.subrange(i6, e)[0]);
            }
        }
    }
    assert(i6 < e ==> s[i6] == '+') by {
        if i6 < e {
            assert(s[i6] == s.subrange(i6, e)[0]);
        }
    }
    lemma_field_reads(s, i0, m.major);
    lemma_field_reads(s, i2, m.minor);
    lemma_field_reads(s, i4, m.patch);

    let em = empty_slots(12);
    let c0 = if o.len() == 0 {
        em
    } else {
        em.update(0, Some(0usize)).update(1, Some(1usize))
    };
    let c1 = c0.update(2, Some(i0 as usize)).update(3, Some(i1 as usize));
    let c2 = c1.update(4, Some(i2 as usize)).update(5, Some(i3 as usize));
    let c3 = c2.update(6, Some(i4 as usize)).update(7, Some(i5 as usize));
    let c4 = match m.pre_release {
        Some(_) => c3.update(8, Some((i5 + 1) as usize)).update(9, Some(i6 as usize)),
        None => c3,
    };
    let c5 = match m.build {
        Some(_) => c4.update(10, Some((i6 + 1) as usize)).update(11, Some(e as usize)),
        None => c4,
    };
    assert(run(prog, s, 51, e, c5) == Some(c5));
    match m.build {
        Some(b) => {
            assert forall|j: int| i6 + 1 <= j < e implies class_has(
                CharClass::Word,
                #[trigger] s[j],
            ) by {
                assert(s[j] == s.subrange(i6, e)[j - i6]);
                assert(bp[j - i6] == b[j - i6 - 1]);
            }
            lemma_run_word_part(prog, s, 46, CharClass::Lit('+'), 5, i6, b.len() as int, c4, c5);
        },
        None => {
            lemma_run_skip(prog, s, 46, 51, CharClass::Lit('+'), e, c4);
        },
    }
    assert(run(prog, s, 46, i6, c4) == Some(c5));
    match m.pre_release {
        Some(p) => {
            assert forall|j: int| i5 + 1 <= j < i6 implies class_has(
                CharClass::Word,
                #[trigger] s[j],
            ) by {
                assert(s[j] == s.subrange(i5, i6)[j - i5]);
                assert(pp[j - i5] == p[j - i5 - 1]);
            }
            lemma_run_word_part(
                prog,
                s,
                41,
                CharClass::Either('-', '.'),
                4,
                i5,
                p.len() as int,
                c3,
                c5,
            );
        },
        None => {
            lemma_run_skip(prog, s, 41, 46, CharClass::Either('-', '.'), i5, c3);
        },
    }
    assert(run(prog, s, 41, i5, c3) == Some(c5));
    lemma_run_dot_field(prog, s, 30, 3, i3, fc.len() as int, c2, c5);
    lemma_run_dot_field(prog, s, 19, 2, i1, fb.len() as int, c1, c5);
    lemma_run_field(prog, s, 10, 1, i0, fa.len() as int, c0, c5);
    assert(s[0] == s.subrange(0, i0)[0] || i0 == 0);
    lemma_run_operator(s, o, c5);
    assert(empty_slots(2 * 6) == em);
    assert(first_match(prog, s, 6) == Some(c5));

    reveal(single_model);
    reveal_strlit("*");
    reveal_strlit("x");
    reveal_strlit("latest");
    assert(s != "*"@ && s != "x"@ && s != "latest"@) by {
        assert("latest"@[0] == 'l');
    }
    if o.len() == 0 {
        assert(group_text(s, c5, 0) is None);
    } else {
        assert(group_text(s, c5, 0) == Some(o));
        if o == seq!['='] {
            assert(o != seq!['~'] && o != seq!['^'] && o != seq!['>'] && o != seq!['<']) by {
                assert(o[0] == '=');
            }
        }
    }
    assert(group_text(s, c5, 1) == Some(fa));
    assert(group_text(s, c5, 2) == Some(fb));
    assert(group_text(s, c5, 3) == Some(fc));
    match m.pre_release {
        Some(p) => {
            assert(s.subrange(i5 + 1, i6) =~= p) by {
                assert forall|j: int| 0 <= j < p.len() implies s.subrange(i5 + 1, i6)[j] == p[j] by {
                    assert(s[i5 + 1 + j] == s.subrange(i5, i6)[j + 1]);
                }
            }
            assert(group_text(s, c5, 4) == Some(p));
        },
        None => {
            assert(group_text(s, c5, 4) is None);
        },
    }
    match m.build {
        Some(b) => {
            assert(s.subrange(i6 + 1, e) =~= b) by {
                assert forall|j: int| 0 <= j < b.len() implies s.subrange(i6 + 1, e)[j] == b[j] by {
                    assert(s[i6 + 1 + j] == s.subrange(i6, e)[j + 1]);
                }
            }
            assert(group_text(s, c5, 5) == Some(b));
        },
        None => {
            assert(group_text(s, c5, 5) is None);
        },
    }
}

/// Reading the text that `constraint_text` writes gives the constraint
/// back (`~16.13.1`, `1.0.0-beta+build1`), for every constraint in the
/// grammar of a single constraint whose text fits in memory.
pub proof fn lemma_constraint_text_roundtrip(m: ConstraintModel)
    requires
        in_single_grammar(m),
        constraint_text(m).len() <= usize::MAX,
    ensures
        single_model(constraint_text(m)) == Some(m),
{
    assert(constraint_text(m) =~= written(m, op_part(m)));
    lemma_written_reads_back(m, op_part(m));
}

/// An explicit `=` reads as no operator (`=1.2.3` as `1.2.3`), so the text
/// of what it reads drops the `=`.
pub proof fn lemma_equal_sign_dropped(m: ConstraintModel)
    requires
        in_single_grammar(m),
        m.operator == Operator::Equal,
        constraint_text(m).len() < usize::MAX,
    ensures
        single_model(seq!['='] + constraint_text(m)) == Some(m),
{
    assert(seq!['='] + constraint_text(m) =~= written(m, seq!['=']));
    lemma_written_reads_back(m, seq!['=']);
}

/// Constraints are joined with "either" only where the text has a `|`: a
/// `,`, a space, or no connector at all joins them with "and".
pub proof fn lemma_or_needs_bar(s: Seq<char>)
    ensures
        (constraints_model(s) matches Some((c, _)) && c == Connector::Or) ==> has_char(s, '|'),
{
    if has_char(s, '>') || has_char(s, '<') || has_double_bar(s) {
        reveal(range_model);
        match first_match(range_prog(), s, 9) {
            None => {},
            Some(c) => {
                let g = group_text(s, c, 4);
                if connector_of(g) == Connector::Or {
                    let x = g.unwrap();
                    assert(x == seq!['|'] || x == seq!['|', '|']);
                    let a = c[8].unwrap() as int;
                    assert(x[0] == '|');
                    assert(s[a] == x[0]);
                    assert(0 <= a < s.len());
                }
            },
        }
    }
}

/// Every operator reads back from the text that writes it.
pub proof fn lemma_operator_text_reads_back(o: Operator)
    ensures
        operator_of(Some(operator_text(o))) == o,
{
    let t = operator_text(o);
    assert(t[0] == operator_text(o)[0]);
    if t.len() == 2 {
        assert(t[1] == '=');
    }
    assert(seq!['~'][0] == '~');
    assert(seq!['^'][0] == '^');
    assert(seq!['>'][0] == '>');
    assert(seq!['<'][0] == '<');
    assert(seq!['>', '='][0] == '>');
    assert(seq!['<', '='][0] == '<');
}

/// A connector is "either" exactly when it is written as one or two `|`.
pub proof fn lemma_connector_texts(x: Seq<char>)
    ensures
        connector_of(Some(x)) == Connector::Or <==> (1 <= x.len() <= 2 && forall|i: int|
            0 <= i < x.len() ==> x[i] == '|'),
        connector_of(None) == Connector::And,
{
    if 1 <= x.len() <= 2 && forall|i: int| 0 <= i < x.len() ==> x[i] == '|' {
        if x.len() == 1 {
            assert(x =~= seq!['|']);
        } else {
            assert(x =~= seq!['|', '|']);
        }
    }
    if x == seq!['|'] {
        assert(x[0] == '|');
    }
    if x == seq!['|', '|'] {
        assert(x[0] == '|' && x[1] == '|');
    }
}

/// `name@latest` reads as `name@*`: both ask for any version.
pub proof fn lemma_latest_is_any(name: Seq<char>)
    ensures
        package_model(name + seq!['@'] + "latest"@) == package_model(name + seq!['@'] + "*"@),
{
    reveal_strlit("latest");
    reveal_strlit("*");
    lemma_last_at_split(name, "latest"@);
    lemma_last_at_split(name, "*"@);
    let s1 = name + seq!['@'] + "latest"@;
    let s2 = name + seq!['@'] + "*"@;
    assert(s1.subrange(name.len() as int + 1, s1.len() as int) =~= "latest"@);
    assert(s2.subrange(name.len() as int + 1, s2.len() as int) =~= "*"@);
    assert(s1.subrange(0, name.len() as int) =~= name);
    assert(s2.subrange(0, name.len() as int) =~= name);
}

} // verus!
