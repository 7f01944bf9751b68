use vstd::prelude::*;

verus! {

/// Whether `c` is whitespace in Unicode's sense (the `White_Space` property).
pub uninterp spec fn is_white(c: char) -> bool;

/// Relies on `char::is_whitespace`: true exactly for characters with the
/// Unicode `White_Space` property.
#[verifier::external_body]
fn white(c: char) -> (r: bool)
    ensures
        r == is_white(c),
{
    c.is_whitespace()
}

/// Relies on `str::chars`: it yields the characters of the string in order.
#[verifier::external_body]
fn chars_of(s: &str) -> (r: Vec<char>)
    ensures
        r@ == s@,
{
    s.chars().collect()
}

/// Relies on `String`'s `FromIterator<&char>`: the string holds the characters
/// in the order given.
#[verifier::external_body]
fn string_of(cs: &Vec<char>) -> (r: String)
    ensures
        r@ == cs@,
{
    cs.iter().collect()
}

/// Which stage of the program a define belongs to.
#[derive(Clone, Copy, Debug, PartialEq, Eq, Structural)]
pub enum ShaderType {
    Vertex,
    Fragment,
}

/// A shader program's sources and the `#define` table of each stage.
pub struct Shader {
    pub id: u32,
    vertex_code: String,
    fragment_code: String,
    vertex_defines: Vec<(String, String)>,
    fragment_defines: Vec<(String, String)>,
    compiled: bool,
}

pub struct ShaderView {
    pub id: u32,
    pub vertex_code: Seq<char>,
    pub fragment_code: Seq<char>,
    pub vertex_defines: Seq<(Seq<char>, Seq<char>)>,
    pub fragment_defines: Seq<(Seq<char>, Seq<char>)>,
    pub compiled: bool,
}

impl ShaderView {
    pub open spec fn defines(self, t: ShaderType) -> Seq<(Seq<char>, Seq<char>)> {
        match t {
            ShaderType::Vertex => self.vertex_defines,
            ShaderType::Fragment => self.fragment_defines,
        }
    }
}

pub open spec fn pair_views(d: Seq<(String, String)>) -> Seq<(Seq<char>, Seq<char>)> {
    d.map_values(|p: (String, String)| (p.0@, p.1@))
}

impl View for Shader {
    type V = ShaderView;

    closed spec fn view(&self) -> ShaderView {
        ShaderView {
            id: self.id,
            vertex_code: self.vertex_code@,
            fragment_code: self.fragment_code@,
            vertex_defines: pair_views(self.vertex_defines@),
            fragment_defines: pair_views(self.fragment_defines@),
            compiled: self.compiled,
        }
    }
}

/// The value of the first define named `name`, if any.
pub open spec fn lookup(d: Seq<(Seq<char>, Seq<char>)>, name: Seq<char>) -> Option<Seq<char>>
    decreases d.len(),
{
    if d.len() == 0 {
        None
    } else if d[0].0 == name {
        Some(d[0].1)
    } else {
        lookup(d.drop_first(), name)
    }
}

/// The defines not named `name`, in their order.
pub open spec fn without(d: Seq<(Seq<char>, Seq<char>)>, name: Seq<char>) -> Seq<(Seq<char>, Seq<char>)>
    decreases d.len(),
{
    if d.len() == 0 {
        d
    } else {
        without(d.drop_last(), name) + if d.last().0 == name {
            Seq::empty()
        } else {
            seq![d.last()]
        }
    }
}

/// The words of `s` from index `i` on, where `cur` is the word read so far: the
/// maximal runs of characters that are not whitespace.
pub open spec fn words_from(s: Seq<char>, i: int, cur: Seq<char>) -> Seq<Seq<char>>
    decreases s.len() - i,
{
    if i >= s.len() {
        if cur.len() > 0 {
            seq![cur]
        } else {
            seq![]
        }
    } else if is_white(s[i]) {
        (if cur.len() > 0 {
            seq![cur]
        } else {
            seq![]
        }) + words_from(s, i + 1, Seq::empty())
    } else {
        words_from(s, i + 1, cur.push(s[i]))
    }
}

pub open spec fn words(s: Seq<char>) -> Seq<Seq<char>> {
    words_from(s, 0, Seq::empty())
}

/// The words joined with single spaces.
pub open spec fn joined(ws: Seq<Seq<char>>) -> Seq<char>
    decreases ws.len(),
{
    if ws.len() == 0 {
        Seq::empty()
    } else if ws.len() == 1 {
        ws[0]
    } else {
        joined(ws.drop_last()) + seq![' '] + ws.last()
    }
}

/// The entry that a define line gives: its second word is the name, the words
/// after it, joined by single spaces, the value (each empty where missing).
pub open spec fn define_entry(line: Seq<char>) -> (Seq<char>, Seq<char>) {
    let ws = words(line);
    if ws.len() < 2 {
        (Seq::empty(), Seq::empty())
    } else {
        (ws[1], joined(ws.subrange(2, ws.len() as int)))
    }
}

pub open spec fn define_marker() -> Seq<char> {
    seq!['#', 'd', 'e', 'f', 'i', 'n', 'e', ' ']
}

pub open spec fn marker_at(code: Seq<char>, k: int) -> bool {
    0 <= k && k + 8 <= code.len() && code.subrange(k, k + 8) == define_marker()
}

/// The first index at or after `pos` where `#define ` starts.
pub open spec fn find_marker(code: Seq<char>, pos: int) -> Option<int>
    decreases code.len() - pos,
{
    if pos < 0 || pos + 8 > code.len() {
        None
    } else if marker_at(code, pos) {
        Some(pos)
    } else {
        find_marker(code, pos + 1)
    }
}

/// The index of the first newline at or after `pos`, or the length.
pub open spec fn line_end(code: Seq<char>, pos: int) -> int
    decreases code.len() - pos,
{
    if pos >= code.len() {
        code.len() as int
    } else if code[pos] == '\n' {
        pos
    } else {
        line_end(code, pos + 1)
    }
}

/// The define table of a source: one entry for each `#define ` found scanning
/// from `pos`, each read from the marker to the end of its line, the scan going
/// on after that line.
pub open spec fn defines_from(code: Seq<char>, pos: int) -> Seq<(Seq<char>, Seq<char>)>
    decreases code.len() + 1 - pos,
{
    if pos < 0 || pos > code.len() {
        seq![]
    } else {
        match find_marker(code, pos) {
            None => seq![],
            Some(start) => {
                let end = line_end(code, start);
                seq![define_entry(code.subrange(start, end))] + if end < code.len() && end >= pos {
                    defines_from(code, end + 1)
                } else {
                    seq![]
                }
            },
        }
    }
}

pub open spec fn defines_of(code: Seq<char>) -> Seq<(Seq<char>, Seq<char>)> {
    defines_from(code, 0)
}

pub open spec fn char_views(v: Seq<Vec<char>>) -> Seq<Seq<char>> {
    v.map_values(|w: Vec<char>| w@)
}

fn append_chars(out: &mut Vec<char>, w: &Vec<char>)
    ensures
        final(out)@ == old(out)@ + w@,
{
    let mut j: usize = 0;
    while j < w.len()
        invariant
            j <= w.len(),
            out@ == old(out)@ + w@.subrange(0, j as int),
        decreases w.len() - j,
    {
        out.push(w[j]);
        j = j + 1;
        assert(out@ =~= old(out)@ + w@.subrange(0, j as int));
    }
    assert(w@.subrange(0, w.len() as int) =~= w@);
}

fn slice(code: &Vec<char>, start: usize, end: usize) -> (r: Vec<char>)
    requires
        start <= end <= code.len(),
    ensures
        r@ == code@.subrange(start as int, end as int),
{
    let mut r: Vec<char> = Vec::new();
    let mut i: usize = start;
    while i < end
        invariant
            start <= i <= end <= code.len(),
            r@ == code@.subrange(start as int, i as int),
        decreases end - i,
    {
        r.push(code[i]);
        i = i + 1;
        assert(r@ =~= code@.subrange(start as int, i as int));
    }
    r
}

fn split_words(s: &Vec<char>) -> (r: Vec<Vec<char>>)
    ensures
        char_views(r@) == words(s@),
{
    let mut done: Vec<Vec<char>> = Vec::new();
    let mut cur: Vec<char> = Vec::new();
    let mut i: usize = 0;
    assert(char_views(done@) =~= Seq::<Seq<char>>::empty());
    while i < s.len()
        invariant
            i <= s.len(),
            char_views(done@) + words_from(s@, i as int, cur@) == words(s@),
        decreases s.len() - i,
    {
        let c = s[i];
        if white(c) {
            if cur.len() > 0 {
                let ghost before = done@;
                let ghost word = cur@;
                done.push(cur);
                cur = Vec::new();
                assert(char_views(done@) =~= char_views(before) + seq![word]);
                assert(char_views(before) + (seq![word] + words_from(s@, i + 1, Seq::empty()))
                    =~= char_views(done@) + words_from(s@, i + 1, Seq::empty()));
            } else {
                assert(cur@ =~= Seq::<char>::empty());
                assert(Seq::<Seq<char>>::empty() + words_from(s@, i + 1, Seq::empty())
                    =~= words_from(s@, i + 1, Seq::empty()));
            }
        } else {
            cur.push(c);
        }
        i = i + 1;
    }
    if cur.len() > 0 {
        let ghost before = done@;
        let ghost word = cur@;
        done.push(cur);
        assert(char_views(done@) =~= char_views(before) + seq![word]);
    } else {
        assert(char_views(done@) + Seq::<Seq<char>>::empty() =~= char_views(done@));
    }
    done
}

fn join_from(ws: &Vec<Vec<char>>, from: usize) -> (r: Vec<char>)
    requires
        from <= ws.len(),
    ensures
        r@ == joined(char_views(ws@).subrange(from as int, ws.len() as int)),
{
    let ghost v = char_views(ws@);
    let mut out: Vec<char> = Vec::new();
    let mut i: usize = from;
    assert(v.subrange(from as int, from as int).len() == 0);
    while i < ws.len()
        invariant
            from <= i <= ws.len(),
            v == char_views(ws@),
            out@ == joined(v.subrange(from as int, i as int)),
        decreases ws.len() - i,
    {
        let ghost part = v.subrange(from as int, i + 1);
        assert(part.drop_last() =~= v.subrange(from as int, i as int));
        assert(part.last() == ws@[i as int]@);
        if i > from {
            out.push(' ');
        } else {
            assert(out@ =~= Seq::<char>::empty());
        }
        append_chars(&mut out, &ws[i]);
        proof {
            if i > from {
                assert(out@ =~= joined(part.drop_last()) + seq![' '] + part.last());
            } else {
                assert(out@ =~= part[0]);
            }
        }
        i = i + 1;
    }
    out
}

fn entry_of_line(line: &Vec<char>) -> (r: (String, String))
    ensures
        (r.0@, r.1@) == define_entry(line@),
{
    let ws = split_words(line);
    let ghost v = char_views(ws@);
    assert(v.len() == ws.len());
    if ws.len() < 2 {
        let e: Vec<char> = Vec::new();
        (string_of(&e), string_of(&e))
    } else {
        let name = string_of(&ws[1]);
        let value = string_of(&join_from(&ws, 2));
        (name, value)
    }
}

fn marker_found(code: &Vec<char>, k: usize) -> (r: bool)
    requires
        k + 8 <= code.len(),
    ensures
        r == marker_at(code@, k as int),
{
    let marker: [char; 8] = ['#', 'd', 'e', 'f', 'i', 'n', 'e', ' '];
    assert(marker@ =~= define_marker());
    let mut j: usize = 0;
    while j < 8
        invariant
            j <= 8,
            k + 8 <= code.len(),
            marker@ == define_marker(),
            forall|t: int| 0 <= t < j ==> code@[k + t] == define_marker()[t],
        decreases 8 - j,
    {
        if code[k + j] != marker[j] {
            assert(code@.subrange(k as int, k + 8)[j as int] != define_marker()[j as int]);
            return false;
        }
        j = j + 1;
    }
    assert(code@.subrange(k as int, k + 8) =~= define_marker());
    true
}

fn next_marker(code: &Vec<char>, pos: usize) -> (r: Option<usize>)
    requires
        pos <= code.len(),
    ensures
        match r {
            Some(k) => find_marker(code@, pos as int) == Some(k as int) && pos <= k < code.len(),
            None => find_marker(code@, pos as int) is None,
        },
{
    let mut k: usize = pos;
    while k < code.len() && code.len() - k >= 8
        invariant
            pos <= k <= code.len(),
            find_marker(code@, pos as int) == find_marker(code@, k as int),
        decreases code.len() - k,
    {
        if marker_found(code, k) {
            return Some(k);
        }
        k = k + 1;
    }
    None
}

fn end_of_line(code: &Vec<char>, pos: usize) -> (r: usize)
    requires
        pos <= code.len(),
    ensures
        r as int == line_end(code@, pos as int),
        pos <= r <= code.len(),
{
    let mut k: usize = pos;
    while k < code.len() && code[k] != '\n'
        invariant
            pos <= k <= code.len(),
            line_end(code@, pos as int) == line_end(code@, k as int),
        decreases code.len() - k,
    {
        k = k + 1;
    }
    k
}

proof fn lemma_pair_views_push(d: Seq<(String, String)>, e: (String, String))
    ensures
        pair_views(d.push(e)) == pair_views(d).push((e.0@, e.1@)),
{
    assert(pair_views(d.push(e)) =~= pair_views(d).push((e.0@, e.1@)));
}

/// Reads the define table of a shader source: for each `#define ` in it, the
/// name and value written on the rest of that line.
pub fn extract_defines(shader_code: &str) -> (r: Vec<(String, String)>)
    ensures
        pair_views(r@) == defines_of(shader_code@),
{
    let cs = chars_of(shader_code);
    let mut out: Vec<(String, String)> = Vec::new();
    let mut pos: usize = 0;
    let mut done = false;
    assert(pair_views(out@) =~= Seq::<(Seq<char>, Seq<char>)>::empty());
    while !done
        invariant
            pos <= cs.len(),
            cs@ == shader_code@,
            done ==> pair_views(out@) == defines_of(cs@),
            !done ==> pair_views(out@) + defines_from(cs@, pos as int) == defines_of(cs@),
        decreases cs.len() + 1 - pos + if done { 0int } else { 1int },
    {
        match next_marker(&cs, pos) {
            None => {
                assert(pair_views(out@) + Seq::empty() =~= pair_views(out@));
                done = true;
            },
            Some(start) => {
                let end = end_of_line(&cs, start);
                let line = slice(&cs, start, end);
                let entry = entry_of_line(&line);
                let ghost before = out@;
                let ghost e = (entry.0@, entry.1@);
                out.push(entry);
                proof {
                    lemma_pair_views_push(before, out@.last());
                    assert(out@ == before.push(out@.last()));
                }
                if end < cs.len() {
                    assert(pair_views(before) + (seq![e] + defines_from(cs@, end + 1))
                        =~= pair_views(out@) + defines_from(cs@, end + 1));
                    pos = end + 1;
                } else {
                    assert(pair_views(before) + (seq![e] + Seq::empty()) =~= pair_views(out@));
                    done = true;
                }
            },
        }
    }
    out
}

fn define_pair(name: &str, value: &str) -> (r: (String, String))
    ensures
        r.0@ == name@,
        r.1@ == value@,
{
    (name.to_owned(), value.to_owned())
}

fn lookup_in<'a>(d: &'a Vec<(String, String)>, name: &str) -> (r: Option<&'a str>)
    ensures
        match r {
            Some(v) => lookup(pair_views(d@), name@) == Some(v@),
            None => lookup(pair_views(d@), name@) is None,
        },
{
    let ghost v = pair_views(d@);
    let key = name.to_owned();
    let mut i: usize = 0;
    assert(v.subrange(0, v.len() as int) =~= v);
    while i < d.len()
        invariant
            i <= d.len(),
            v == pair_views(d@),
            key@ == name@,
            lookup(v, name@) == lookup(v.subrange(i as int, v.len() as int), name@),
        decreases d.len() - i,
    {
        let ghost rest = v.subrange(i as int, v.len() as int);
        assert(rest.drop_first() =~= v.subrange(i + 1, v.len() as int));
        if d[i].0 == key {
            return Some(d[i].1.as_str());
        }
        i = i + 1;
    }
    None
}

fn retain_others(d: &Vec<(String, String)>, name: &str) -> (r: Vec<(String, String)>)
    ensures
        pair_views(r@) == without(pair_views(d@), name@),
{
    let ghost v = pair_views(d@);
    let key = name.to_owned();
    let mut out: Vec<(String, String)> = Vec::new();
    let mut i: usize = 0;
    assert(v.subrange(0, 0) =~= Seq::<(Seq<char>, Seq<char>)>::empty());
    assert(pair_views(out@) =~= Seq::<(Seq<char>, Seq<char>)>::empty());
    while i < d.len()
        invariant
            i <= d.len(),
            v == pair_views(d@),
            key@ == name@,
            pair_views(out@) == without(v.subrange(0, i as int), name@),
        decreases d.len() - i,
    {
        let ghost part = v.subrange(0, i + 1);
        assert(part.drop_last() =~= v.subrange(0, i as int));
        if d[i].0 == key {
            assert(without(part, name@) =~= without(v.subrange(0, i as int), name@));
        } else {
            let kept = (d[i].0.clone(), d[i].1.clone());
            let ghost before = out@;
            out.push(kept);
            proof {
                lemma_pair_views_push(before, out@.last());
                assert(out@ == before.push(out@.last()));
                assert(without(part, name@) =~= pair_views(out@));
            }
        }
        i = i + 1;
    }
    assert(v.subrange(0, d.len() as int) =~= v);
    out
}

/// The character of the decimal digit `d` (for `d < 10`).
pub open spec fn digit_char(d: nat) -> char {
    seq!['0', '1', '2', '3', '4', '5', '6', '7', '8', '9'][d as int]
}

/// The decimal digits of `n`, most significant first, without leading zeros.
pub open spec fn decimal(n: nat) -> Seq<char>
    decreases n,
{
    if n < 10 {
        seq![digit_char(n)]
    } else {
        decimal(n / 10) + seq![digit_char(n % 10)]
    }
}

fn digit(d: usize) -> (r: char)
    requires
        d < 10,
    ensures
        r == digit_char(d as nat),
{
    let digits: [char; 10] = ['0', '1', '2', '3', '4', '5', '6', '7', '8', '9'];
    assert(digits@ =~= seq!['0', '1', '2', '3', '4', '5', '6', '7', '8', '9']);
    digits[d]
}

fn push_decimal(out: &mut Vec<char>, n: usize)
    ensures
        final(out)@ == old(out)@ + decimal(n as nat),
    decreases n,
{
    if n >= 10 {
        push_decimal(out, n / 10);
    }
    out.push(digit(n % 10));
    assert(out@ =~= old(out)@ + decimal(n as nat));
}

/// The name of element `index` of the uniform array `name`: `name[index]`,
/// the index in decimal.
pub fn array_element_name(name: &str, index: usize) -> (r: String)
    ensures
        r@ == name@ + seq!['['] + decimal(index as nat) + seq![']'],
{
    let mut out = chars_of(name);
    out.push('[');
    push_decimal(&mut out, index);
    out.push(']');
    string_of(&out)
}

impl Shader {
    /// A shader of the two given sources, not yet compiled, with the define
    /// table of each read from its source.
    pub fn new(vertex_code: String, fragment_code: String) -> (r: Shader)
        ensures
            r@.id == 0,
            r@.vertex_code == vertex_code@,
            r@.fragment_code == fragment_code@,
            r@.vertex_defines == defines_of(vertex_code@),
            r@.fragment_defines == defines_of(fragment_code@),
            !r@.compiled,
    {
        let vertex_defines = extract_defines(vertex_code.as_str());
        let fragment_defines = extract_defines(fragment_code.as_str());
        Shader { id: 0, vertex_code, fragment_code, vertex_defines, fragment_defines, compiled: false }
    }

    /// The source of one stage.
    pub fn source(&self, t: ShaderType) -> (r: &str)
        ensures
            r@ == match t {
                ShaderType::Vertex => self@.vertex_code,
                ShaderType::Fragment => self@.fragment_code,
            },
    {
        match t {
            ShaderType::Vertex => self.vertex_code.as_str(),
            ShaderType::Fragment => self.fragment_code.as_str(),
        }
    }

    /// Records the program object that the sources were linked into.
    pub fn set_program_id(&mut self, id: u32)
        ensures
            final(self)@ == (ShaderView { id, ..old(self)@ }),
    {
        self.id = id;
    }

    /// Appends `name = value` to the define table of the given stage; the
    /// sources are left as they are.
    pub fn add_define(&mut self, name: &str, value: &str, shader_type: ShaderType)
        ensures
            final(self)@.defines(shader_type) == old(self)@.defines(shader_type).push((name@, value@)),
            shader_type == ShaderType::Vertex ==> final(self)@ == (ShaderView {
                vertex_defines: final(self)@.vertex_defines,
                ..old(self)@
            }),
            shader_type == ShaderType::Fragment ==> final(self)@ == (ShaderView {
                fragment_defines: final(self)@.fragment_defines,
                ..old(self)@
            }),
    {
        let entry = define_pair(name, value);
        match shader_type {
            ShaderType::Vertex => {
                let ghost before = self.vertex_defines@;
                self.vertex_defines.push(entry);
                proof {
                    lemma_pair_views_push(before, self.vertex_defines@.last());
                    assert(self.vertex_defines@ == before.push(self.vertex_defines@.last()));
                }
            },
            ShaderType::Fragment => {
                let ghost before = self.fragment_defines@;
                self.fragment_defines.push(entry);
                proof {
                    lemma_pair_views_push(before, self.fragment_defines@.last());
                    assert(self.fragment_defines@ == before.push(self.fragment_defines@.last()));
                }
            },
        }
    }

    /// Drops every define named `name` from the table of the given stage,
    /// keeping the others in order; the sources are left as they are.
    pub fn remove_define(&mut self, name: &str, shader_type: ShaderType)
        ensures
            final(self)@.defines(shader_type) == without(old(self)@.defines(shader_type), name@),
            shader_type == ShaderType::Vertex ==> final(self)@ == (ShaderView {
                vertex_defines: final(self)@.vertex_defines,
                ..old(self)@
            }),
            shader_type == ShaderType::Fragment ==> final(self)@ == (ShaderView {
                fragment_defines: final(self)@.fragment_defines,
                ..old(self)@
            }),
    {
        match shader_type {
            ShaderType::Vertex => {
                self.vertex_defines = retain_others(&self.vertex_defines, name);
            },
            ShaderType::Fragment => {
                self.fragment_defines = retain_others(&self.fragment_defines, name);
            },
        }
    }

    /// The value of the first define named `name` in the table of the given
    /// stage.
    pub fn get_define(&self, name: &str, shader_type: ShaderType) -> (r: Option<&str>)
        ensures
            match r {
                Some(v) => lookup(self@.defines(shader_type), name@) == Some(v@),
                None => lookup(self@.defines(shader_type), name@) is None,
            },
    {
        match shader_type {
            ShaderType::Vertex => lookup_in(&self.vertex_defines, name),
            ShaderType::Fragment => lookup_in(&self.fragment_defines, name),
        }
    }

    pub fn is_compiled(&self) -> (r: bool)
        ensures
            r == self@.compiled,
    {
        self.compiled
    }
}

} // verus!
