//! A small backtracking matcher for anchored patterns, with the priorities of
//! a Perl-style engine: alternatives left to right, optional parts and
//! repetitions greedy, the first way through that reaches the end of the text
//! wins. The grammar of version constraints is written down as two such
//! patterns (see `version_check`), and this matcher reads text by them; it
//! takes the place of a regular-expression library for that grammar.
//!
//! A pattern is a program of instructions whose jumps all go forward; a
//! repetition is one instruction over a class of characters, so every
//! program terminates.
use vstd::prelude::*;

use crate::text::is_digit;

verus! {

/// A set of characters that one step of a pattern accepts.
#[derive(Clone, Copy, Debug, PartialEq, Eq, Structural)]
pub enum CharClass {
    /// This character only.
    Lit(char),
    /// An ASCII digit `0-9`.
    Digit,
    /// `[a-zA-Z0-9-]`.
    Word,
    /// Unicode white space (the property `White_Space`).
    Space,
    /// One of two characters.
    Either(char, char),
}

/// One instruction of a pattern.
#[derive(Clone, Copy, Debug, PartialEq, Eq, Structural)]
pub enum Inst {
    /// One character of the class.
    Class(CharClass),
    /// As many characters of the class as there are, at least the given
    /// number, giving back one at a time when what follows fails.
    Repeat(CharClass, usize),
    /// Go on at the first target; if that fails, at the second.
    Split(usize, usize),
    /// Go on at the target.
    Jmp(usize),
    /// Record the current position in the slot.
    Save(usize),
    /// The text must end here: the match is found.
    End,
}

pub open spec fn is_white_space(c: char) -> bool {
    let n = c as u32;
    (0x9 <= n <= 0xd) || n == 0x20 || n == 0x85 || n == 0xa0 || n == 0x1680 || (0x2000 <= n
        <= 0x200a) || n == 0x2028 || n == 0x2029 || n == 0x202f || n == 0x205f || n == 0x3000
}

pub open spec fn class_has(k: CharClass, c: char) -> bool {
    match k {
        CharClass::Lit(l) => c == l,
        CharClass::Digit => '0' <= c <= '9',
        CharClass::Word => ('a' <= c <= 'z') || ('A' <= c <= 'Z') || ('0' <= c <= '9') || c == '-',
        CharClass::Space => is_white_space(c),
        CharClass::Either(a, b) => c == a || c == b,
    }
}

/// How many characters of the class follow position `i`.
pub open spec fn run_length(k: CharClass, s: Seq<char>, i: int) -> int
    decreases s.len() - i,
{
    if 0 <= i < s.len() && class_has(k, s[i]) {
        1 + run_length(k, s, i + 1)
    } else {
        0
    }
}

/// Runs the program from instruction `pc` at text position `i`, with the
/// slots recorded so far; the slots of the first way that reaches `End`.
pub open spec fn run(prog: Seq<Inst>, s: Seq<char>, pc: int, i: int, caps: Seq<Option<usize>>) -> Option<
    Seq<Option<usize>>,
>
    decreases prog.len() - pc, 0int,
{
    if pc < 0 || pc >= prog.len() {
        None
    } else {
        match prog[pc] {
            Inst::Class(k) => if 0 <= i < s.len() && class_has(k, s[i]) {
                run(prog, s, pc + 1, i + 1, caps)
            } else {
                None
            },
            Inst::Repeat(k, min) => try_counts(prog, s, pc, i, run_length(k, s, i), min as int, caps),
            Inst::Split(a, b) => if pc < a <= prog.len() && pc < b <= prog.len() {
                match run(prog, s, a as int, i, caps) {
                    Some(r) => Some(r),
                    None => run(prog, s, b as int, i, caps),
                }
            } else {
                None
            },
            Inst::Jmp(t) => if pc < t <= prog.len() {
                run(prog, s, t as int, i, caps)
            } else {
                None
            },
            Inst::Save(slot) => if slot < caps.len() {
                run(prog, s, pc + 1, i, caps.update(slot as int, Some(i as usize)))
            } else {
                None
            },
            Inst::End => if i == s.len() {
                Some(caps)
            } else {
                None
            },
        }
    }
}

/// The repetition at `pc` takes `j` characters, then fewer, down to `min`.
pub open spec fn try_counts(
    prog: Seq<Inst>,
    s: Seq<char>,
    pc: int,
    i: int,
    j: int,
    min: int,
    caps: Seq<Option<usize>>,
) -> Option<Seq<Option<usize>>>
    decreases prog.len() - pc - 1, j + 1,
{
    if pc < 0 || pc >= prog.len() || j < min || min < 0 {
        None
    } else {
        match run(prog, s, pc + 1, i + j, caps) {
            Some(r) => Some(r),
            None => if j == min {
                None
            } else {
                try_counts(prog, s, pc, i, j - 1, min, caps)
            },
        }
    }
}

/// `n` empty slots.
pub open spec fn empty_slots(n: nat) -> Seq<Option<usize>> {
    Seq::new(n, |k: int| None)
}

/// The slots of the match of the whole text, if the text matches: two
/// slots per group, where it starts and where it ends.
pub open spec fn first_match(prog: Seq<Inst>, s: Seq<char>, groups: nat) -> Option<Seq<Option<usize>>> {
    run(prog, s, 0, 0, empty_slots(2 * groups))
}

/// The text of group `g` in the slots of a match, if the group took part.
pub open spec fn group_text(s: Seq<char>, caps: Seq<Option<usize>>, g: int) -> Option<Seq<char>> {
    if 0 <= 2 * g && 2 * g + 1 < caps.len() {
        match (caps[2 * g], caps[2 * g + 1]) {
            (Some(a), Some(b)) => if a <= b <= s.len() {
                Some(s.subrange(a as int, b as int))
            } else {
                None
            },
            _ => None,
        }
    } else {
        None
    }
}

// ---------------------------------------------------------------------
// Running a program forward: where each first choice succeeds
// ---------------------------------------------------------------------

/// `k` characters of the class from `i`, and none right after them.
pub proof fn lemma_run_length_exact(k: CharClass, s: Seq<char>, i: int, n: int)
    requires
        0 <= i,
        0 <= n,
        i + n <= s.len(),
        forall|j: int| i <= j < i + n ==> class_has(k, #[trigger] s[j]),
        i + n < s.len() ==> !class_has(k, s[i + n]),
    ensures
        run_length(k, s, i) == n,
    decreases n,
{
    if n > 0 {
        lemma_run_length_exact(k, s, i + 1, n - 1);
    }
}

/// A field `\d+|x|\*` captured in group `g`: the program at `b` saves its
/// start, reads the field, saves its end and goes on at `b + 9`.
pub open spec fn field_at(prog: Seq<Inst>, b: int, g: int) -> bool {
    &&& 0 <= b && b + 9 <= prog.len() <= usize::MAX
    &&& 0 <= g
    &&& prog[b] == Inst::Save((2 * g) as usize)
    &&& prog[b + 1] == Inst::Split((b + 2) as usize, (b + 4) as usize)
    &&& prog[b + 2] == Inst::Repeat(CharClass::Digit, 1)
    &&& prog[b + 3] == Inst::Jmp((b + 8) as usize)
    &&& prog[b + 4] == Inst::Split((b + 5) as usize, (b + 7) as usize)
    &&& prog[b + 5] == Inst::Class(CharClass::Lit('x'))
    &&& prog[b + 6] == Inst::Jmp((b + 8) as usize)
    &&& prog[b + 7] == Inst::Class(CharClass::Lit('*'))
    &&& prog[b + 8] == Inst::Save((2 * g + 1) as usize)
}

/// Reading a run of digits (followed by no digit) or a `*` as a field.
pub proof fn lemma_run_field(
    prog: Seq<Inst>,
    s: Seq<char>,
    b: int,
    g: int,
    i: int,
    n: int,
    caps: Seq<Option<usize>>,
    r: Seq<Option<usize>>,
)
    requires
        field_at(prog, b, g),
        2 * g + 1 < caps.len() <= usize::MAX,
        0 <= i,
        n > 0,
        i + n <= s.len(),
        s.len() <= usize::MAX,
        (forall|j: int| i <= j < i + n ==> is_digit(#[trigger] s[j])) && (i + n < s.len() ==> !is_digit(s[i + n]))
            || (n == 1 && s[i] == '*'),
        run(prog, s, b + 9, i + n, caps.update(2 * g, Some(i as usize)).update(2 * g + 1, Some((i + n) as usize)))
            == Some(r),
    ensures
        run(prog, s, b, i, caps) == Some(r),
{
    let c1 = caps.update(2 * g, Some(i as usize));
    let c2 = c1.update(2 * g + 1, Some((i + n) as usize));
    assert(run(prog, s, b + 8, i + n, c1) == Some(r));
    assert(run(prog, s, b + 3, i + n, c1) == Some(r));
    if s[i] == '*' && n == 1 {
        assert(run(prog, s, b + 7, i, c1) == Some(r));
        assert(run(prog, s, b + 5, i, c1) is None);
        assert(run(prog, s, b + 4, i, c1) == Some(r));
        lemma_run_length_exact(CharClass::Digit, s, i, 0);
        assert(try_counts(prog, s, b + 2, i, 0, 1, c1) is None);
        assert(run(prog, s, b + 2, i, c1) is None);
    } else {
        lemma_run_length_exact(CharClass::Digit, s, i, n);
        assert(try_counts(prog, s, b + 2, i, n, 1, c1) == Some(r));
        assert(run(prog, s, b + 2, i, c1) == Some(r));
    }
    assert(run(prog, s, b + 1, i, c1) == Some(r));
}

/// An optional part `(?:L F)?` that is there: the literal `l` then a field.
pub proof fn lemma_run_dot_field(
    prog: Seq<Inst>,
    s: Seq<char>,
    p: int,
    g: int,
    i: int,
    n: int,
    caps: Seq<Option<usize>>,
    r: Seq<Option<usize>>,
)
    requires
        0 <= p,
        p + 11 <= prog.len(),
        prog[p] == Inst::Split((p + 1) as usize, (p + 11) as usize),
        prog[p + 1] == Inst::Class(CharClass::Lit('.')),
        field_at(prog, p + 2, g),
        2 * g + 1 < caps.len() <= usize::MAX,
        0 <= i,
        i + 1 + n <= s.len(),
        s.len() <= usize::MAX,
        s[i] == '.',
        n > 0,
        (forall|j: int| i + 1 <= j < i + 1 + n ==> is_digit(#[trigger] s[j])) && (i + 1 + n < s.len() ==> !is_digit(
            s[i + 1 + n],
        )) || (n == 1 && s[i + 1] == '*'),
        run(
            prog,
            s,
            p + 11,
            i + 1 + n,
            caps.update(2 * g, Some((i + 1) as usize)).update(2 * g + 1, Some((i + 1 + n) as usize)),
        ) == Some(r),
    ensures
        run(prog, s, p, i, caps) == Some(r),
{
    lemma_run_field(prog, s, p + 2, g, i + 1, n, caps, r);
    assert(run(prog, s, p + 1, i, caps) == Some(r));
}

/// An optional part `(?:C (W+))?` that is there: a character of class
/// `c`, then a run of word characters captured in group `g`.
pub proof fn lemma_run_word_part(
    prog: Seq<Inst>,
    s: Seq<char>,
    p: int,
    c: CharClass,
    g: int,
    i: int,
    n: int,
    caps: Seq<Option<usize>>,
    r: Seq<Option<usize>>,
)
    requires
        0 <= p,
        p + 5 <= prog.len() <= usize::MAX,
        0 <= g,
        prog[p] == Inst::Split((p + 1) as usize, (p + 5) as usize),
        prog[p + 1] == Inst::Class(c),
        prog[p + 2] == Inst::Save((2 * g) as usize),
        prog[p + 3] == Inst::Repeat(CharClass::Word, 1),
        prog[p + 4] == Inst::Save((2 * g + 1) as usize),
        2 * g + 1 < caps.len() <= usize::MAX,
        0 <= i,
        n > 0,
        i + 1 + n <= s.len(),
        s.len() <= usize::MAX,
        class_has(c, s[i]),
        forall|j: int| i + 1 <= j < i + 1 + n ==> class_has(CharClass::Word, #[trigger] s[j]),
        i + 1 + n < s.len() ==> !class_has(CharClass::Word, s[i + 1 + n]),
        run(
            prog,
            s,
            p + 5,
            i + 1 + n,
            caps.update(2 * g, Some((i + 1) as usize)).update(2 * g + 1, Some((i + 1 + n) as usize)),
        ) == Some(r),
    ensures
        run(prog, s, p, i, caps) == Some(r),
{
    let c1 = caps.update(2 * g, Some((i + 1) as usize));
    assert(run(prog, s, p + 4, i + 1 + n, c1) == Some(r));
    lemma_run_length_exact(CharClass::Word, s, i + 1, n);
    assert(try_counts(prog, s, p + 3, i + 1, n, 1, c1) == Some(r));
    assert(run(prog, s, p + 3, i + 1, c1) == Some(r));
    assert(run(prog, s, p + 2, i + 1, caps) == Some(r));
    assert(run(prog, s, p + 1, i, caps) == Some(r));
}

/// An optional part whose first character does not match is passed over.
pub proof fn lemma_run_skip(prog: Seq<Inst>, s: Seq<char>, p: int, q: int, c: CharClass, i: int, caps: Seq<Option<usize>>)
    requires
        0 <= p < q <= prog.len() <= usize::MAX,
        prog[p] == Inst::Split((p + 1) as usize, q as usize),
        prog[p + 1] == Inst::Class(c),
        0 <= i <= s.len(),
        i < s.len() ==> !class_has(c, s[i]),
    ensures
        run(prog, s, p, i, caps) == run(prog, s, q, i, caps),
{
    assert(run(prog, s, p + 1, i, caps) is None);
}

pub fn class_contains(k: CharClass, c: char) -> (r: bool)
    ensures
        r == class_has(k, c),
{
    match k {
        CharClass::Lit(l) => c == l,
        CharClass::Digit => '0' <= c && c <= '9',
        CharClass::Word => ('a' <= c && c <= 'z') || ('A' <= c && c <= 'Z') || ('0' <= c && c
            <= '9') || c == '-',
        CharClass::Space => {
            let n = c as u32;
            (0x9 <= n && n <= 0xd) || n == 0x20 || n == 0x85 || n == 0xa0 || n == 0x1680 || (0x2000
                <= n && n <= 0x200a) || n == 0x2028 || n == 0x2029 || n == 0x202f || n == 0x205f
                || n == 0x3000
        },
        CharClass::Either(a, b) => c == a || c == b,
    }
}

fn count_run(k: CharClass, s: &Vec<char>, i: usize) -> (n: usize)
    requires
        i <= s@.len(),
    ensures
        n == run_length(k, s@, i as int),
        i + n <= s@.len(),
{
    let mut j: usize = i;
    while j < s.len() && class_contains(k, s[j])
        invariant
            i <= j <= s@.len(),
            run_length(k, s@, i as int) == (j - i) + run_length(k, s@, j as int),
        decreases s@.len() - j,
    {
        j = j + 1;
    }
    j - i
}

fn copy_slots(c: &Vec<Option<usize>>) -> (r: Vec<Option<usize>>)
    ensures
        r@ == c@,
{
    let mut r: Vec<Option<usize>> = Vec::new();
    let mut k: usize = 0;
    while k < c.len()
        invariant
            k <= c@.len(),
            r@ == c@.take(k as int),
        decreases c@.len() - k,
    {
        r.push(c[k]);
        k = k + 1;
        assert(r@ =~= c@.take(k as int));
    }
    assert(c@.take(k as int) =~= c@);
    r
}

fn run_at(prog: &Vec<Inst>, s: &Vec<char>, pc: usize, i: usize, caps: Vec<Option<usize>>) -> (r:
    Option<Vec<Option<usize>>>)
    requires
        i <= s@.len(),
        pc <= prog@.len(),
    ensures
        match r {
            Some(c) => run(prog@, s@, pc as int, i as int, caps@) == Some(c@),
            None => run(prog@, s@, pc as int, i as int, caps@) is None,
        },
    decreases prog@.len() - pc, 0int,
{
    if pc >= prog.len() {
        return None;
    }
    match prog[pc] {
        Inst::Class(k) => {
            if i < s.len() && class_contains(k, s[i]) {
                run_at(prog, s, pc + 1, i + 1, caps)
            } else {
                None
            }
        },
        Inst::Repeat(k, min) => {
            let n = count_run(k, s, i);
            if n < min {
                assert(try_counts(prog@, s@, pc as int, i as int, n as int, min as int, caps@) is None);
                return None;
            }
            counts_at(prog, s, pc, i, n, min, caps)
        },
        Inst::Split(a, b) => {
            if pc < a && a <= prog.len() && pc < b && b <= prog.len() {
                match run_at(prog, s, a, i, copy_slots(&caps)) {
                    Some(r) => Some(r),
                    None => run_at(prog, s, b, i, caps),
                }
            } else {
                None
            }
        },
        Inst::Jmp(t) => {
            if pc < t && t <= prog.len() {
                run_at(prog, s, t, i, caps)
            } else {
                None
            }
        },
        Inst::Save(slot) => {
            if slot < caps.len() {
                let mut c = caps;
                c.set(slot, Some(i));
                run_at(prog, s, pc + 1, i, c)
            } else {
                None
            }
        },
        Inst::End => {
            if i == s.len() {
                Some(caps)
            } else {
                None
            }
        },
    }
}

fn counts_at(
    prog: &Vec<Inst>,
    s: &Vec<char>,
    pc: usize,
    i: usize,
    j: usize,
    min: usize,
    caps: Vec<Option<usize>>,
) -> (r: Option<Vec<Option<usize>>>)
    requires
        pc < prog@.len(),
        min <= j,
        i + j <= s@.len(),
    ensures
        match r {
            Some(c) => try_counts(prog@, s@, pc as int, i as int, j as int, min as int, caps@)
                == Some(c@),
            None => try_counts(prog@, s@, pc as int, i as int, j as int, min as int, caps@) is None,
        },
    decreases prog@.len() - pc - 1, j + 1,
{
    let _plen = prog.len();
    let _slen = s.len();
    match run_at(prog, s, pc + 1, i + j, copy_slots(&caps)) {
        Some(r) => Some(r),
        None => {
            if j == min {
                None
            } else {
                counts_at(prog, s, pc, i, j - 1, min, caps)
            }
        },
    }
}

/// Matches the whole text against the program; the slots of the match.
pub fn match_all(prog: &Vec<Inst>, s: &Vec<char>, groups: usize) -> (r: Option<Vec<Option<usize>>>)
    requires
        2 * groups <= usize::MAX,
    ensures
        match r {
            Some(c) => first_match(prog@, s@, groups as nat) == Some(c@),
            None => first_match(prog@, s@, groups as nat) is None,
        },
{
    let mut caps: Vec<Option<usize>> = Vec::new();
    let mut k: usize = 0;
    while k < 2 * groups
        invariant
            k <= 2 * groups,
            2 * groups <= usize::MAX,
            caps@ == empty_slots(k as nat),
        decreases 2 * groups - k,
    {
        caps.push(None);
        k = k + 1;
        assert(caps@ =~= empty_slots(k as nat));
    }
    run_at(prog, s, 0, 0, caps)
}

/// The characters of group `g` of a match, if it took part.
pub fn group_chars(s: &Vec<char>, caps: &Vec<Option<usize>>, g: usize) -> (r: Option<Vec<char>>)
    ensures
        match r {
            Some(v) => group_text(s@, caps@, g as int) == Some(v@),
            None => group_text(s@, caps@, g as int) is None,
        },
{
    if g >= caps.len() / 2 {
        return None;
    }
    match (caps[2 * g], caps[2 * g + 1]) {
        (Some(a), Some(b)) => {
            if a <= b && b <= s.len() {
                let mut v: Vec<char> = Vec::new();
                let mut k: usize = a;
                while k < b
                    invariant
                        a <= k <= b,
                        b <= s@.len(),
                        v@ == s@.subrange(a as int, k as int),
                    decreases b - k,
                {
                    v.push(s[k]);
                    k = k + 1;
                    assert(v@ =~= s@.subrange(a as int, k as int));
                }
                Some(v)
            } else {
                None
            }
        },
        _ => None,
    }
}

} // verus!
