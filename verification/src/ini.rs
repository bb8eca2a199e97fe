//! A reader for flat `key = value` pairs under one `[section]` header.

use vstd::prelude::*;

use crate::text::{
    chars_of, find_char, is_ws, lemma_first_index, lemma_trim_after_space,
    lemma_trimmed_ends, range_eq, split_once, string_from_range, trim, trim_end, trim_start,
    trimmed_range, vec_from_range,
};

verus! {

/// The pieces of `s` between `'\n'` characters, the last one possibly empty.
pub open spec fn split_lines(s: Seq<char>) -> Seq<Seq<char>>
    decreases s.len(),
{
    if s.len() == 0 {
        seq![Seq::<char>::empty()]
    } else {
        let prev = split_lines(s.drop_last());
        if s.last() == '\n' {
            prev.push(Seq::<char>::empty())
        } else {
            prev.update(prev.len() - 1, prev.last().push(s.last()))
        }
    }
}

pub proof fn lemma_split_lines_len(s: Seq<char>)
    ensures
        split_lines(s).len() >= 1,
    decreases s.len(),
{
    if s.len() > 0 {
        lemma_split_lines_len(s.drop_last());
    }
}

/// The reader's state: whether the wanted section is open, and the values
/// read so far.
pub type IniState = (bool, Map<Seq<char>, Seq<char>>);

/// The effect of one line. Blank lines and `;`/`#` comments change nothing;
/// a `[name]` header opens or closes the wanted section; inside it, a line
/// with `=` sets the trimmed key to the trimmed value (a later line wins).
pub open spec fn ini_step(st: IniState, line: Seq<char>, section: Seq<char>) -> IniState {
    let t = trim(line);
    if t.len() == 0 || t[0] == ';' || t[0] == '#' {
        st
    } else if t[0] == '[' && t.last() == ']' {
        (trim(t.subrange(1, t.len() - 1)) == section, st.1)
    } else if !st.0 {
        st
    } else {
        match split_once(t, '=') {
            Some(kv) => (st.0, st.1.insert(trim(kv.0), trim(kv.1))),
            None => st,
        }
    }
}

/// The state after reading `lines` in order, starting with no values and
/// with the section open or not as `open` says.
pub open spec fn ini_fold_from(open: bool, lines: Seq<Seq<char>>, section: Seq<char>) -> IniState
    decreases lines.len(),
{
    if lines.len() == 0 {
        (open, Map::empty())
    } else {
        ini_step(ini_fold_from(open, lines.drop_last(), section), lines.last(), section)
    }
}

/// The state after reading `lines` in order from the start of a file.
pub open spec fn ini_fold(lines: Seq<Seq<char>>, section: Seq<char>) -> IniState {
    ini_fold_from(false, lines, section)
}

/// The values that `text` assigns before its first `[header]` line.
pub open spec fn top_level_values(text: Seq<char>) -> Map<Seq<char>, Seq<char>> {
    // No header name holds a line break, so every header closes the
    // section that the reading starts in.
    ini_fold_from(true, split_lines(text), seq!['\n']).1
}

/// The values that `text` gives under the header `[section]`.
pub open spec fn ini_section_values(text: Seq<char>, section: Seq<char>) -> Map<
    Seq<char>,
    Seq<char>,
> {
    ini_fold(split_lines(text), section).1
}

/// The map that a list of assignments builds, a later one overriding an
/// earlier one with the same key.
pub open spec fn entries_map(es: Seq<(Seq<char>, Seq<char>)>) -> Map<Seq<char>, Seq<char>>
    decreases es.len(),
{
    if es.len() == 0 {
        Map::empty()
    } else {
        entries_map(es.drop_last()).insert(es.last().0, es.last().1)
    }
}

/// Assignments at or after `i` that do not name `k` leave its entry as the
/// first `i` assignments made it.
pub proof fn lemma_entries_map_suffix(es: Seq<(Seq<char>, Seq<char>)>, i: int, k: Seq<char>)
    requires
        0 <= i <= es.len(),
        forall|j: int| i <= j < es.len() ==> (#[trigger] es[j]).0 != k,
    ensures
        entries_map(es).contains_key(k) == entries_map(es.take(i)).contains_key(k),
        entries_map(es)[k] == entries_map(es.take(i))[k],
    decreases es.len() - i,
{
    if i == es.len() {
        assert(es.take(i) =~= es);
    } else {
        let e = es.drop_last();
        assert(e.take(i) =~= es.take(i));
        assert forall|j: int| i <= j < e.len() implies (#[trigger] e[j]).0 != k by {
            assert(e[j] == es[j]);
        }
        lemma_entries_map_suffix(e, i, k);
    }
}

/// The values of one section, in the order in which they were read.
pub struct IniValues {
    entries: Vec<(Vec<char>, String)>,
}

impl IniValues {
    pub closed spec fn entry_views(&self) -> Seq<(Seq<char>, Seq<char>)> {
        self.entries@.map_values(|e: (Vec<char>, String)| (e.0@, e.1@))
    }

    /// The key/value map that the section holds.
    pub closed spec fn view(&self) -> Map<Seq<char>, Seq<char>> {
        entries_map(self.entry_views())
    }

    pub fn new() -> (r: IniValues)
        ensures
            r.view() == Map::<Seq<char>, Seq<char>>::empty(),
    {
        let r = IniValues { entries: Vec::new() };
        assert(r.entry_views() =~= Seq::<(Seq<char>, Seq<char>)>::empty());
        r
    }

    /// Sets `key` to `value`, replacing any earlier value.
    pub fn insert(&mut self, key: Vec<char>, value: String)
        ensures
            final(self).view() == old(self).view().insert(key@, value@),
    {
        let ghost old_views = self.entry_views();
        self.entries.push((key, value));
        assert(self.entry_views().drop_last() =~= old_views);
    }

    /// The value held for `key`, if any.
    pub fn get(&self, key: &str) -> (r: Option<String>)
        ensures
            match r {
                Some(v) => self.view().contains_key(key@) && v@ == self.view()[key@],
                None => !self.view().contains_key(key@),
            },
    {
        let k = chars_of(key);
        let ghost es = self.entry_views();
        let mut i = self.entries.len();
        while i > 0
            invariant
                i <= self.entries.len(),
                es == self.entry_views(),
                es.len() == self.entries.len(),
                k@ == key@,
                forall|j: int| i <= j < es.len() ==> (#[trigger] es[j]).0 != k@,
            decreases i,
        {
            let e = &self.entries[i - 1];
            assert(es[i - 1] == (e.0@, e.1@));
            if range_eq(&e.0, 0, e.0.len(), &k) {
                assert(e.0@.subrange(0, e.0@.len() as int) =~= e.0@);
                proof {
                    lemma_entries_map_suffix(es, i as int, k@);
                    assert(es.take(i as int).drop_last() =~= es.take(i - 1));
                }
                return Some(e.1.clone());
            }
            assert(e.0@.subrange(0, e.0@.len() as int) =~= e.0@);
            i = i - 1;
        }
        proof {
            lemma_entries_map_suffix(es, 0, k@);
            assert(es.take(0) =~= Seq::<(Seq<char>, Seq<char>)>::empty());
        }
        None
    }
}

/// Applies one line, `s[lo..hi]`, to the reader's state.
fn read_line(
    s: &Vec<char>,
    lo: usize,
    hi: usize,
    section: &Vec<char>,
    in_section: &mut bool,
    values: &mut IniValues,
)
    requires
        lo <= hi <= s.len(),
    ensures
        (*final(in_section), final(values).view()) == ini_step(
            (*old(in_section), old(values).view()),
            s@.subrange(lo as int, hi as int),
            section@,
        ),
{
    let ghost line = s@.subrange(lo as int, hi as int);
    let (a, b) = trimmed_range(s, lo, hi);
    let ghost t = s@.subrange(a as int, b as int);
    assert(t == trim(line));
    if a == b {
        return;
    }
    assert(t[0] == s@[a as int]);
    assert(t.last() == s@[b - 1]);
    if s[a] == ';' || s[a] == '#' {
        return;
    }
    if s[a] == '[' && s[b - 1] == ']' {
        let (x, y) = trimmed_range(s, a + 1, b - 1);
        assert(t.subrange(1, t.len() - 1) =~= s@.subrange(a + 1, b - 1));
        *in_section = range_eq(s, x, y, section);
        return;
    }
    if !*in_section {
        return;
    }
    match find_char(s, a, b, '=') {
        Some(k) => {
            assert(t.take(k - a) =~= s@.subrange(a as int, k as int));
            assert(t.skip(k - a + 1) =~= s@.subrange(k + 1, b as int));
            let (ka, kb) = trimmed_range(s, a, k);
            let (va, vb) = trimmed_range(s, k + 1, b);
            let key = vec_from_range(s, ka, kb);
            let value = string_from_range(s, va, vb);
            values.insert(key, value);
        },
        None => {},
    }
}

/// Reads the `key = value` pairs under the header `[section]` of `contents`.
/// Lines are split at `'\n'` and trimmed; blank lines and lines starting
/// with `;` or `#` are skipped; a later assignment of a key wins.
pub fn parse_ini_section(contents: &str, section: &str) -> (r: IniValues)
    ensures
        r.view() == ini_section_values(contents@, section@),
{
    let s = chars_of(contents);
    let sec = chars_of(section);
    parse_ini_chars(&s, &sec)
}

/// `parse_ini_section` over the characters of the text and of the section's name.
pub fn parse_ini_chars(s: &Vec<char>, sec: &Vec<char>) -> (r: IniValues)
    ensures
        r.view() == ini_section_values(s@, sec@),
{
    read_lines(s, sec, false)
}

/// The assignments of `text` that come before its first `[header]` line.
pub fn parse_top_level(text: &str) -> (r: IniValues)
    ensures
        r.view() == top_level_values(text@),
{
    let s = chars_of(text);
    let sec: Vec<char> = vec!['\n'];
    assert(sec@ =~= seq!['\n']);
    read_lines(&s, &sec, true)
}

/// The values that reading all lines of `s` gives, starting as `open` says.
fn read_lines(s: &Vec<char>, sec: &Vec<char>, open: bool) -> (r: IniValues)
    ensures
        r.view() == ini_fold_from(open, split_lines(s@), sec@).1,
{
    let mut in_section = open;
    let mut values = IniValues::new();
    let mut line_start: usize = 0;
    let mut i: usize = 0;
    proof {
        assert(s@.take(0) =~= Seq::<char>::empty());
    }
    while i < s.len()
        invariant
            line_start <= i <= s.len(),
            split_lines(s@.take(i as int)).len() >= 1,
            split_lines(s@.take(i as int)).last() == s@.subrange(line_start as int, i as int),
            (in_section, values.view()) == ini_fold_from(
                open,
                split_lines(s@.take(i as int)).drop_last(),
                sec@,
            ),
        decreases s.len() - i,
    {
        let ghost prev = split_lines(s@.take(i as int));
        let ghost next = split_lines(s@.take(i + 1));
        assert(s@.take(i + 1).drop_last() =~= s@.take(i as int));
        if s[i] == '\n' {
            read_line(s, line_start, i, sec, &mut in_section, &mut values);
            assert(next == prev.push(Seq::<char>::empty()));
            assert(next.drop_last() =~= prev);
            assert(prev == prev.drop_last().push(prev.last()));
            line_start = i + 1;
            assert(s@.subrange(line_start as int, i + 1) =~= Seq::<char>::empty());
        } else {
            assert(next == prev.update(prev.len() - 1, prev.last().push(s@[i as int])));
            assert(next.drop_last() =~= prev.drop_last());
            assert(s@.subrange(line_start as int, i + 1) =~= s@.subrange(
                line_start as int,
                i as int,
            ).push(s@[i as int]));
        }
        i = i + 1;
    }
    let ghost lines = split_lines(s@.take(i as int));
    read_line(s, line_start, s.len(), sec, &mut in_section, &mut values);
    assert(s@.take(i as int) =~= s@);
    assert(lines == lines.drop_last().push(lines.last()));
    values
}


/// Characters allowed in the keys that this library writes.
pub open spec fn is_key_char(c: char) -> bool {
    ('a' <= c && c <= 'z') || c == '_'
}

/// A non-empty key of lower-case letters and underscores.
pub open spec fn is_plain_key(k: Seq<char>) -> bool {
    k.len() > 0 && forall|i: int| 0 <= i < k.len() ==> is_key_char(#[trigger] k[i])
}

/// A value that reads back unchanged: no line break, and nothing for `trim`
/// to take off.
pub open spec fn is_plain_value(v: Seq<char>) -> bool {
    trim(v) == v && forall|i: int| 0 <= i < v.len() ==> #[trigger] v[i] != '\n'
}

/// Appending text without a line break extends the last line.
pub proof fn lemma_split_lines_append(s: Seq<char>, w: Seq<char>)
    requires
        forall|i: int| 0 <= i < w.len() ==> #[trigger] w[i] != '\n',
    ensures
        split_lines(s + w).len() == split_lines(s).len(),
        split_lines(s + w) == split_lines(s).update(
            split_lines(s).len() - 1,
            split_lines(s).last() + w,
        ),
    decreases w.len(),
{
    lemma_split_lines_len(s);
    if w.len() == 0 {
        assert(s + w =~= s);
        assert(split_lines(s).last() + w =~= split_lines(s).last());
        assert(split_lines(s).update(split_lines(s).len() - 1, split_lines(s).last())
            =~= split_lines(s));
    } else {
        let w0 = w.drop_last();
        assert forall|i: int| 0 <= i < w0.len() implies #[trigger] w0[i] != '\n' by {
            assert(w0[i] == w[i]);
        }
        lemma_split_lines_append(s, w0);
        assert((s + w).drop_last() =~= s + w0);
        assert((s + w).last() == w.last());
        assert(split_lines(s).last() + w =~= (split_lines(s).last() + w0).push(w.last()));
        assert(split_lines(s + w) =~= split_lines(s).update(
            split_lines(s).len() - 1,
            split_lines(s).last() + w,
        ));
    }
}

/// The header `[section]` opens the section.
pub proof fn lemma_step_header(st: IniState, section: Seq<char>)
    requires
        is_plain_key(section),
    ensures
        ini_step(st, seq!['['] + section + seq![']'], section) == (true, st.1),
{
    let w = seq!['['] + section + seq![']'];
    assert(w[0] == '[');
    assert(w.last() == ']');
    assert(trim_start(w) == w);
    assert(trim_end(w) == w);
    assert(w.subrange(1, w.len() - 1) =~= section);
    assert(!is_ws(section[0]) && !is_ws(section.last())) by {
        assert(is_key_char(section[0]));
        assert(is_key_char(section[section.len() - 1]));
    }
    assert(trim_start(section) == section);
    assert(trim_end(section) == section);
}

/// Inside the section, `key = value` sets the key to the value.
pub proof fn lemma_step_assignment(m: Map<Seq<char>, Seq<char>>, k: Seq<char>, v: Seq<char>, section: Seq<char>)
    requires
        is_plain_key(k),
        is_plain_value(v),
    ensures
        ini_step((true, m), k + seq![' ', '=', ' '] + v, section) == (true, m.insert(k, v)),
{
    let w = k + seq![' ', '=', ' '] + v;
    let n: int = k.len() as int;
    assert(is_key_char(k[0]));
    assert(w[0] == k[0]);
    assert(trim_start(w) == w);
    let t = if v.len() == 0 {
        k + seq![' ', '=']
    } else {
        w
    };
    if v.len() == 0 {
        assert(w.last() == ' ');
        assert(w.drop_last() =~= k + seq![' ', '=']);
        assert(trim_end(w) == trim_end(k + seq![' ', '=']));
        assert((k + seq![' ', '=']).last() == '=');
    } else {
        lemma_trimmed_ends(v);
        assert(w.last() == v.last());
    }
    assert(trim(w) == t);
    assert(t[0] == k[0]);
    assert forall|j: int| 0 <= j < n + 1 implies t[j] != '=' by {
        if j < n {
            assert(t[j] == k[j]);
            assert(is_key_char(k[j]));
        }
    }
    assert(t[n + 1] == '=');
    lemma_first_index(t, '=', n + 1);
    let kv0 = t.take(n + 1);
    let kv1 = t.skip(n + 2);
    assert(kv0 =~= k + seq![' ']);
    assert(is_key_char(k[n - 1]));
    assert((k + seq![' ']).drop_last() =~= k);
    assert(trim_start(k + seq![' ']) == k + seq![' ']);
    assert(trim_end(k) == k);
    assert(trim(kv0) == k);
    if v.len() == 0 {
        assert(kv1 =~= Seq::<char>::empty());
        assert(trim_start(kv1) == kv1);
    } else {
        assert(kv1 =~= seq![' '] + v);
        lemma_trim_after_space(v);
    }
    assert(trim(kv1) == v);
}

} // verus!
