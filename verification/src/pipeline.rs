//! Reading the user's configuration file: one `key=value` per line.
use vstd::prelude::*;

use crate::npm_conf::{config_text, opt_text};
use crate::strmap::{inserted, keys_sorted, text_lt, StrMap};
use crate::text::{first_index_of, lemma_first_index_of, string_of_range, chars_of};

verus! {

/// An entry by its texts.
pub type EntryView = (Seq<char>, Option<Seq<char>>);

/// The entries of a configuration by their texts.
pub open spec fn entries_view(s: Seq<(Seq<char>, Option<String>)>) -> Seq<EntryView> {
    s.map_values(|e: (Seq<char>, Option<String>)| (e.0, opt_text(e.1)))
}

/// One line: the key before the first `=` and the value after it, none
/// when empty; a line without `=` is a key without a value.
pub open spec fn line_entry(line: Seq<char>) -> EntryView {
    let e = first_index_of(line, '=');
    if e < 0 {
        (line, None)
    } else {
        let v = line.subrange(e + 1, line.len() as int);
        (line.subrange(0, e), if v.len() == 0 {
            None
        } else {
            Some(v)
        })
    }
}

/// The entries after the lines of `t` are read into `acc`, in order, each
/// nonempty line setting its key.
pub open spec fn parse_from(acc: Seq<EntryView>, t: Seq<char>) -> Seq<EntryView>
    decreases t.len(),
{
    if t.len() == 0 {
        acc
    } else {
        let p = first_index_of(t, '\n');
        proof {
            lemma_first_index_of(t, '\n');
        }
        let line = if p < 0 {
            t
        } else {
            t.subrange(0, p)
        };
        let rest = if p < 0 {
            Seq::empty()
        } else {
            t.subrange(p + 1, t.len() as int)
        };
        let next = if line.len() == 0 {
            acc
        } else {
            inserted(acc, line_entry(line).0, line_entry(line).1)
        };
        parse_from(next, rest)
    }
}

proof fn lemma_first_index_is(s: Seq<char>, c: char, j: int)
    requires
        0 <= j <= s.len(),
        j < s.len() ==> s[j] == c,
        forall|k: int| 0 <= k < j ==> s[k] != c,
    ensures
        first_index_of(s, c) == if j < s.len() {
            j
        } else {
            -1
        },
{
    lemma_first_index_of(s, c);
    let f = first_index_of(s, c);
    if f >= 0 && f < j {
        assert(s[f] == c);
    }
    if j < s.len() && (f < 0 || f > j) {
        assert(s[j] != c);
    }
}

proof fn lemma_view_inserted(s: Seq<(Seq<char>, Option<String>)>, k: Seq<char>, v: Option<String>)
    ensures
        entries_view(inserted(s, k, v)) == inserted(entries_view(s), k, opt_text(v)),
    decreases s.len(),
{
    let t = entries_view(s);
    if s.len() == 0 {
        assert(entries_view(inserted(s, k, v)) =~= inserted(t, k, opt_text(v)));
    } else if s[0].0 == k {
        assert(entries_view(inserted(s, k, v)) =~= inserted(t, k, opt_text(v)));
    } else if text_lt(k, s[0].0) {
        assert(entries_view(inserted(s, k, v)) =~= inserted(t, k, opt_text(v)));
    } else {
        lemma_view_inserted(s.drop_first(), k, v);
        assert(entries_view(s.drop_first()) =~= t.drop_first());
        assert(entries_view(inserted(s, k, v)) =~= inserted(t, k, opt_text(v)));
    }
}

/// Reads a configuration file.
pub fn parse_config(text: &str) -> (r: StrMap<Option<String>>)
    ensures
        entries_view(r@) == parse_from(Seq::empty(), text@),
{
    let t = chars_of(text);
    let n = t.len();
    let mut map: StrMap<Option<String>> = StrMap::new();
    let mut i: usize = 0;
    assert(t@.subrange(0, n as int) =~= t@);
    assert(entries_view(map@) =~= Seq::<EntryView>::empty());
    while i < n
        invariant
            i <= n,
            n == t@.len(),
            t@ == text@,
            parse_from(entries_view(map@), t@.subrange(i as int, n as int)) == parse_from(
                Seq::empty(),
                text@,
            ),
        decreases n - i,
    {
        let ghost rest = t@.subrange(i as int, n as int);
        let mut j = i;
        while j < n && t[j] != '\n'
            invariant
                i <= j <= n,
                n == t@.len(),
                forall|k: int| i <= k < j ==> t@[k] != '\n',
            decreases n - j,
        {
            j = j + 1;
        }
        proof {
            assert forall|k: int| 0 <= k < j - i implies rest[k] != '\n' by {
                assert(rest[k] == t@[i + k]);
            }
            lemma_first_index_is(rest, '\n', j - i);
        }
        let ghost line = t@.subrange(i as int, j as int);
        assert(line =~= if j < n {
            rest.subrange(0, j - i)
        } else {
            rest
        });
        if j > i {
            let mut e = i;
            while e < j && t[e] != '='
                invariant
                    i <= e <= j,
                    j <= n,
                    n == t@.len(),
                    forall|k: int| i <= k < e ==> t@[k] != '=',
                decreases j - e,
            {
                e = e + 1;
            }
            proof {
                assert forall|k: int| 0 <= k < e - i implies line[k] != '=' by {
                    assert(line[k] == t@[i + k]);
                }
                lemma_first_index_is(line, '=', e - i);
            }
            let key = string_of_range(&t, i, e);
            let value = if e < j && e + 1 < j {
                Some(string_of_range(&t, e + 1, j))
            } else {
                None
            };
            proof {
                let ghost le = line_entry(line);
                assert(key@ =~= le.0);
                if e < j {
                    assert(line.subrange(e - i + 1, line.len() as int) =~= t@.subrange(e + 1, j as int));
                }
                assert(opt_text(value) == le.1);
                lemma_view_inserted(map@, key@, value);
            }
            map.insert(key, value);
        }
        if j < n {
            assert(rest.subrange(j - i + 1, rest.len() as int) =~= t@.subrange(j + 1, n as int));
            i = j + 1;
        } else {
            assert(t@.subrange(n as int, n as int) =~= Seq::<char>::empty());
            i = n;
        }
    }
    map
}

// ---------------------------------------------------------------------
// Reading back what was written
// ---------------------------------------------------------------------

/// Entries that a configuration file can hold as they are: keys nonempty
/// without `=` or line breaks, values nonempty without line breaks.
pub open spec fn writable_entries(m: Seq<(Seq<char>, Option<String>)>) -> bool {
    forall|i: int|
        0 <= i < m.len() ==> {
            &&& (#[trigger] m[i]).0.len() > 0
            &&& !m[i].0.contains('=')
            &&& !m[i].0.contains('\n')
            &&& match m[i].1 {
                Some(v) => v@.len() > 0 && !v@.contains('\n'),
                None => true,
            }
        }
}

proof fn lemma_text_ends_with_newline(m: Seq<(Seq<char>, Option<String>)>)
    ensures
        config_text(m).len() == 0 || config_text(m).last() == '\n',
    decreases m.len(),
{
    if m.len() > 0 {
        lemma_text_ends_with_newline(m.drop_last());
    }
}

proof fn lemma_parse_concat(acc: Seq<EntryView>, t1: Seq<char>, t2: Seq<char>)
    requires
        t1.len() == 0 || t1.last() == '\n',
    ensures
        parse_from(acc, t1 + t2) == parse_from(parse_from(acc, t1), t2),
    decreases t1.len(),
{
    if t1.len() == 0 {
        assert(t1 + t2 =~= t2);
    } else {
        let t = t1 + t2;
        lemma_first_index_of(t1, '\n');
        let p = first_index_of(t1, '\n');
        assert(p >= 0);
        assert forall|k: int| 0 <= k < p implies t[k] != '\n' by {
            assert(t[k] == t1[k]);
        }
        lemma_first_index_is(t, '\n', p);
        assert(t.subrange(0, p) =~= t1.subrange(0, p));
        let r1 = t1.subrange(p + 1, t1.len() as int);
        assert(t.subrange(p + 1, t.len() as int) =~= r1 + t2);
        if r1.len() > 0 {
            assert(r1.last() == t1.last());
        }
        let line = t1.subrange(0, p);
        let next = if line.len() == 0 {
            acc
        } else {
            inserted(acc, line_entry(line).0, line_entry(line).1)
        };
        lemma_parse_concat(next, r1, t2);
    }
}

proof fn lemma_parse_line(acc: Seq<EntryView>, x: Seq<char>)
    requires
        x.len() > 0,
        !x.contains('\n'),
    ensures
        parse_from(acc, x + seq!['\n']) == inserted(acc, line_entry(x).0, line_entry(x).1),
{
    let t = x + seq!['\n'];
    assert forall|k: int| 0 <= k < x.len() implies t[k] != '\n' by {
        assert(t[k] == x[k]);
        if x[k] == '\n' {
            assert(x.contains(x[k]));
        }
    }
    lemma_first_index_is(t, '\n', x.len() as int);
    assert(t.subrange(0, x.len() as int) =~= x);
    assert(t.subrange(x.len() as int + 1, t.len() as int) =~= Seq::<char>::empty());
    let next = inserted(acc, line_entry(x).0, line_entry(x).1);
    assert(parse_from(next, Seq::<char>::empty()) == next);
}

proof fn lemma_pair_entry(e: (Seq<char>, Option<String>))
    requires
        !e.0.contains('='),
        match e.1 {
            Some(v) => v@.len() > 0,
            None => true,
        },
    ensures
        line_entry(crate::npm_conf::config_pair(e)) == (e.0, opt_text(e.1)),
{
    let x = crate::npm_conf::config_pair(e);
    assert forall|k: int| 0 <= k < e.0.len() implies x[k] != '=' by {
        assert(x[k] == e.0[k]);
        if e.0[k] == '=' {
            assert(e.0.contains(e.0[k]));
        }
    }
    lemma_first_index_is(x, '=', e.0.len() as int);
    assert(x.subrange(0, e.0.len() as int) =~= e.0);
    match e.1 {
        Some(v) => {
            assert(x.subrange(e.0.len() as int + 1, x.len() as int) =~= v@);
        },
        None => {
            assert(x.subrange(e.0.len() as int + 1, x.len() as int) =~= Seq::<char>::empty());
        },
    }
}

proof fn lemma_inserted_last<V>(s: Seq<(Seq<char>, V)>, k: Seq<char>, v: V)
    requires
        forall|i: int| 0 <= i < s.len() ==> text_lt(#[trigger] s[i].0, k),
    ensures
        inserted(s, k, v) == s.push((k, v)),
    decreases s.len(),
{
    if s.len() > 0 {
        crate::strmap::lemma_text_lt_asymmetric(s[0].0, k);
        crate::strmap::lemma_text_lt_irreflexive(k);
        assert forall|i: int| 0 <= i < s.drop_first().len() implies text_lt(
            #[trigger] s.drop_first()[i].0,
            k,
        ) by {
            assert(s.drop_first()[i] == s[i + 1]);
        }
        lemma_inserted_last(s.drop_first(), k, v);
        assert(seq![s[0]] + s.drop_first().push((k, v)) =~= s.push((k, v)));
    }
}

/// Reading a written configuration gives back its entries, for entries a
/// file can hold (see `writable_entries`).
pub proof fn lemma_config_roundtrip(m: Seq<(Seq<char>, Option<String>)>)
    requires
        keys_sorted(m),
        writable_entries(m),
    ensures
        parse_from(Seq::empty(), config_text(m)) == entries_view(m),
    decreases m.len(),
{
    if m.len() == 0 {
        assert(entries_view(m) =~= Seq::<EntryView>::empty());
    } else {
        let d = m.drop_last();
        let e = m.last();
        assert(m[m.len() - 1] == e);
        assert forall|i: int, j: int| 0 <= i < j < d.len() implies text_lt(
            #[trigger] d[i].0,
            #[trigger] d[j].0,
        ) by {
            assert(d[i] == m[i] && d[j] == m[j]);
        }
        assert forall|i: int| 0 <= i < d.len() implies #[trigger] d[i].0.len() > 0 && !d[i].0.contains(
            '=',
        ) && !d[i].0.contains('\n') && match d[i].1 {
            Some(v) => v@.len() > 0 && !v@.contains('\n'),
            None => true,
        } by {
            assert(d[i] == m[i]);
        }
        lemma_config_roundtrip(d);
        lemma_text_ends_with_newline(d);
        let x = crate::npm_conf::config_pair(e);
        assert(config_text(m) == config_text(d) + x + seq!['\n']);
        assert(config_text(d) + x + seq!['\n'] =~= config_text(d) + (x + seq!['\n']));
        lemma_parse_concat(Seq::empty(), config_text(d), x + seq!['\n']);
        assert(!x.contains('\n')) by {
            if x.contains('\n') {
                let k = choose|k: int| 0 <= k < x.len() && x[k] == '\n';
                if k < e.0.len() {
                    assert(e.0.contains(x[k]));
                } else if k > e.0.len() {
                    match e.1 {
                        Some(v) => {
                            assert(v@[k - e.0.len() - 1] == x[k]);
                            assert(v@.contains(x[k]));
                        },
                        None => {},
                    }
                }
            }
        }
        lemma_parse_line(entries_view(d), x);
        lemma_pair_entry(e);
        assert forall|i: int| 0 <= i < entries_view(d).len() implies text_lt(
            #[trigger] entries_view(d)[i].0,
            e.0,
        ) by {
            assert(d[i] == m[i]);
        }
        lemma_inserted_last(entries_view(d), e.0, opt_text(e.1));
        assert(entries_view(d).push((e.0, opt_text(e.1))) =~= entries_view(m));
    }
}

/// An entry a configuration file can hold as it is.
pub open spec fn writable_entry(e: (Seq<char>, Option<String>)) -> bool {
    &&& e.0.len() > 0
    &&& !e.0.contains('=')
    &&& !e.0.contains('\n')
    &&& match e.1 {
        Some(v) => v@.len() > 0 && !v@.contains('\n'),
        None => true,
    }
}

/// A key set in the configuration (`npm config set`), written to the file
/// and read back, has the value set.
pub proof fn lemma_set_then_read(
    read: Seq<(Seq<char>, Option<String>)>,
    key: Seq<char>,
    value: Option<String>,
)
    requires
        keys_sorted(read),
        writable_entries(read),
        writable_entry((key, value)),
    ensures
        crate::strmap::lookup(parse_from(Seq::empty(), config_text(inserted(read, key, value))), key)
            == Some(opt_text(value)),
{
    let w = inserted(read, key, value);
    crate::strmap::lemma_inserted_sorted_keys(read, key, value);
    let p = |e: (Seq<char>, Option<String>)| writable_entry(e);
    assert forall|i: int| 0 <= i < read.len() implies p(#[trigger] read[i]) by {
        assert(writable_entry(read[i]));
    }
    crate::strmap::lemma_inserted_all(read, key, value, p);
    assert forall|i: int| 0 <= i < w.len() implies (#[trigger] w[i]).0.len() > 0 && !w[i].0.contains(
        '=',
    ) && !w[i].0.contains('\n') && match w[i].1 {
        Some(v) => v@.len() > 0 && !v@.contains('\n'),
        None => true,
    } by {
        assert(p(w[i]));
    }
    lemma_config_roundtrip(w);
    lemma_view_inserted(read, key, value);
    crate::strmap::lemma_lookup_inserted_same(entries_view(read), key, opt_text(value));
}

} // verus!
